//! The identifier allocator's encoding: campaign identifiers are the
//! big-endian byte encoding of a strictly increasing sequence number, so an
//! identifier determines its sequence number and identifiers are never
//! reused.

use vstd::assert_seqs_equal;
use vstd::prelude::*;

verus! {

/// The identifier handed out for sequence number `n`: its eight big-endian
/// bytes.
pub open spec fn campaign_id_of(n: u64) -> Seq<u8> {
    seq![
        ((n >> 56) & 0xff) as u8,
        ((n >> 48) & 0xff) as u8,
        ((n >> 40) & 0xff) as u8,
        ((n >> 32) & 0xff) as u8,
        ((n >> 24) & 0xff) as u8,
        ((n >> 16) & 0xff) as u8,
        ((n >> 8) & 0xff) as u8,
        (n & 0xff) as u8,
    ]
}

/// The sequence number encoded by an eight-byte identifier.
pub open spec fn id_number(id: Seq<u8>) -> u64
    recommends
        id.len() == 8,
{
    ((id[0] as u64) << 56) | ((id[1] as u64) << 48) | ((id[2] as u64) << 40) | ((id[3] as u64)
        << 32) | ((id[4] as u64) << 24) | ((id[5] as u64) << 16) | ((id[6] as u64) << 8) | (
    id[7] as u64)
}

/// Decoding inverts encoding: the identifier of `n` encodes `n`.
pub proof fn lemma_id_number_of_campaign_id(n: u64)
    ensures
        id_number(campaign_id_of(n)) == n,
{
    assert({
        &&& (n >> 56) & 0xff < 256
        &&& (n >> 48) & 0xff < 256
        &&& (n >> 40) & 0xff < 256
        &&& (n >> 32) & 0xff < 256
        &&& (n >> 24) & 0xff < 256
        &&& (n >> 16) & 0xff < 256
        &&& (n >> 8) & 0xff < 256
        &&& n & 0xff < 256
    }) by (bit_vector);
    assert(n == (((n >> 56) & 0xff) << 56) | (((n >> 48) & 0xff) << 48) | (((n >> 40) & 0xff)
        << 40) | (((n >> 32) & 0xff) << 32) | (((n >> 24) & 0xff) << 24) | (((n >> 16) & 0xff)
        << 16) | (((n >> 8) & 0xff) << 8) | (n & 0xff)) by (bit_vector);
}

/// Encoding inverts decoding: an eight-byte identifier is the identifier of
/// the number it encodes.
pub proof fn lemma_campaign_id_of_id_number(id: Seq<u8>)
    requires
        id.len() == 8,
    ensures
        campaign_id_of(id_number(id)) == id,
{
    let x = id_number(id);
    let b0 = id[0] as u64;
    let b1 = id[1] as u64;
    let b2 = id[2] as u64;
    let b3 = id[3] as u64;
    let b4 = id[4] as u64;
    let b5 = id[5] as u64;
    let b6 = id[6] as u64;
    let b7 = id[7] as u64;
    assert((x == (b0 << 56) | (b1 << 48) | (b2 << 40) | (b3 << 32) | (b4 << 24) | (b5 << 16) | (b6
        << 8) | b7 && b0 < 256 && b1 < 256 && b2 < 256 && b3 < 256 && b4 < 256 && b5 < 256 && b6
        < 256 && b7 < 256) ==> b0 == (x >> 56) & 0xff && b1 == (x >> 48) & 0xff && b2 == (x >> 40)
        & 0xff && b3 == (x >> 32) & 0xff && b4 == (x >> 24) & 0xff && b5 == (x >> 16) & 0xff && b6
        == (x >> 8) & 0xff && b7 == x & 0xff) by (bit_vector);
    assert_seqs_equal!(campaign_id_of(id_number(id)) == id);
}

/// Strict lexicographic order on byte sequences of equal length: at the
/// first position where they differ, `a` holds the smaller byte.
pub open spec fn lex_less(a: Seq<u8>, b: Seq<u8>) -> bool
    recommends
        a.len() == b.len(),
{
    exists|i: int|
        #![auto]
        0 <= i < a.len() && a[i] < b[i] && (forall|j: int| 0 <= j < i ==> a[j] == b[j])
}

/// Identifiers order as their sequence numbers do: the big-endian encoding
/// of a smaller number is lexicographically smaller, byte for byte.
pub proof fn lemma_campaign_id_lex_increases(m: u64, n: u64)
    requires
        m < n,
    ensures
        lex_less(campaign_id_of(m), campaign_id_of(n)),
{
    let a = campaign_id_of(m);
    let b = campaign_id_of(n);
    assert({
        &&& (m >> 56) & 0xff < 256 && (n >> 56) & 0xff < 256
        &&& (m >> 48) & 0xff < 256 && (n >> 48) & 0xff < 256
        &&& (m >> 40) & 0xff < 256 && (n >> 40) & 0xff < 256
        &&& (m >> 32) & 0xff < 256 && (n >> 32) & 0xff < 256
        &&& (m >> 24) & 0xff < 256 && (n >> 24) & 0xff < 256
        &&& (m >> 16) & 0xff < 256 && (n >> 16) & 0xff < 256
        &&& (m >> 8) & 0xff < 256 && (n >> 8) & 0xff < 256
        &&& m & 0xff < 256 && n & 0xff < 256
    }) by (bit_vector);
    if (m >> 56) & 0xff != (n >> 56) & 0xff {
        assert((m < n && (m >> 56) & 0xff != (n >> 56) & 0xff) ==> (m >> 56) & 0xff < (n >> 56)
            & 0xff) by (bit_vector);
        assert(a[0] < b[0]);
    } else if (m >> 48) & 0xff != (n >> 48) & 0xff {
        assert((m < n && (m >> 56) & 0xff == (n >> 56) & 0xff && (m >> 48) & 0xff != (n >> 48)
            & 0xff) ==> (m >> 48) & 0xff < (n >> 48) & 0xff) by (bit_vector);
        assert(a[1] < b[1]);
    } else if (m >> 40) & 0xff != (n >> 40) & 0xff {
        assert((m < n && (m >> 56) & 0xff == (n >> 56) & 0xff && (m >> 48) & 0xff == (n >> 48)
            & 0xff && (m >> 40) & 0xff != (n >> 40) & 0xff) ==> (m >> 40) & 0xff < (n >> 40)
            & 0xff) by (bit_vector);
        assert(a[2] < b[2]);
    } else if (m >> 32) & 0xff != (n >> 32) & 0xff {
        assert((m < n && (m >> 56) & 0xff == (n >> 56) & 0xff && (m >> 48) & 0xff == (n >> 48)
            & 0xff && (m >> 40) & 0xff == (n >> 40) & 0xff && (m >> 32) & 0xff != (n >> 32)
            & 0xff) ==> (m >> 32) & 0xff < (n >> 32) & 0xff) by (bit_vector);
        assert(a[3] < b[3]);
    } else if (m >> 24) & 0xff != (n >> 24) & 0xff {
        assert((m < n && (m >> 56) & 0xff == (n >> 56) & 0xff && (m >> 48) & 0xff == (n >> 48)
            & 0xff && (m >> 40) & 0xff == (n >> 40) & 0xff && (m >> 32) & 0xff == (n >> 32) & 0xff
            && (m >> 24) & 0xff != (n >> 24) & 0xff) ==> (m >> 24) & 0xff < (n >> 24) & 0xff)
            by (bit_vector);
        assert(a[4] < b[4]);
    } else if (m >> 16) & 0xff != (n >> 16) & 0xff {
        assert((m < n && (m >> 56) & 0xff == (n >> 56) & 0xff && (m >> 48) & 0xff == (n >> 48)
            & 0xff && (m >> 40) & 0xff == (n >> 40) & 0xff && (m >> 32) & 0xff == (n >> 32) & 0xff
            && (m >> 24) & 0xff == (n >> 24) & 0xff && (m >> 16) & 0xff != (n >> 16) & 0xff) ==> (m
            >> 16) & 0xff < (n >> 16) & 0xff) by (bit_vector);
        assert(a[5] < b[5]);
    } else if (m >> 8) & 0xff != (n >> 8) & 0xff {
        assert((m < n && (m >> 56) & 0xff == (n >> 56) & 0xff && (m >> 48) & 0xff == (n >> 48)
            & 0xff && (m >> 40) & 0xff == (n >> 40) & 0xff && (m >> 32) & 0xff == (n >> 32) & 0xff
            && (m >> 24) & 0xff == (n >> 24) & 0xff && (m >> 16) & 0xff == (n >> 16) & 0xff && (m
            >> 8) & 0xff != (n >> 8) & 0xff) ==> (m >> 8) & 0xff < (n >> 8) & 0xff)
            by (bit_vector);
        assert(a[6] < b[6]);
    } else if m & 0xff != n & 0xff {
        assert((m < n && (m >> 56) & 0xff == (n >> 56) & 0xff && (m >> 48) & 0xff == (n >> 48)
            & 0xff && (m >> 40) & 0xff == (n >> 40) & 0xff && (m >> 32) & 0xff == (n >> 32) & 0xff
            && (m >> 24) & 0xff == (n >> 24) & 0xff && (m >> 16) & 0xff == (n >> 16) & 0xff && (m
            >> 8) & 0xff == (n >> 8) & 0xff && m & 0xff != n & 0xff) ==> m & 0xff < n & 0xff)
            by (bit_vector);
        assert(a[7] < b[7]);
    } else {
        assert(((m >> 56) & 0xff == (n >> 56) & 0xff && (m >> 48) & 0xff == (n >> 48) & 0xff && (m
            >> 40) & 0xff == (n >> 40) & 0xff && (m >> 32) & 0xff == (n >> 32) & 0xff && (m >> 24)
            & 0xff == (n >> 24) & 0xff && (m >> 16) & 0xff == (n >> 16) & 0xff && (m >> 8) & 0xff
            == (n >> 8) & 0xff && m & 0xff == n & 0xff) ==> m == n) by (bit_vector);
        assert(false);
    }
}

/// Distinct sequence numbers get distinct identifiers.
pub proof fn lemma_campaign_id_injective(m: u64, n: u64)
    requires
        m != n,
    ensures
        campaign_id_of(m) != campaign_id_of(n),
{
    lemma_id_number_of_campaign_id(m);
    lemma_id_number_of_campaign_id(n);
}

/// Builds the identifier for sequence number `n`.
pub fn encode_campaign_id(n: u64) -> (id: Vec<u8>)
    ensures
        id@ == campaign_id_of(n),
{
    proof {
        assert({
            &&& (n >> 56) & 0xff < 256
            &&& (n >> 48) & 0xff < 256
            &&& (n >> 40) & 0xff < 256
            &&& (n >> 32) & 0xff < 256
            &&& (n >> 24) & 0xff < 256
            &&& (n >> 16) & 0xff < 256
            &&& (n >> 8) & 0xff < 256
            &&& n & 0xff < 256
        }) by (bit_vector);
    }
    let mut id: Vec<u8> = Vec::new();
    id.push(((n >> 56) & 0xff) as u8);
    id.push(((n >> 48) & 0xff) as u8);
    id.push(((n >> 40) & 0xff) as u8);
    id.push(((n >> 32) & 0xff) as u8);
    id.push(((n >> 24) & 0xff) as u8);
    id.push(((n >> 16) & 0xff) as u8);
    id.push(((n >> 8) & 0xff) as u8);
    id.push((n & 0xff) as u8);
    proof {
        assert_seqs_equal!(id@ == campaign_id_of(n));
    }
    id
}

/// Reads the sequence number out of an identifier. Returns `None` exactly
/// when no sequence number has this identifier.
pub fn decode_campaign_id(id: &Vec<u8>) -> (r: Option<u64>)
    ensures
        match r {
            Some(n) => id@ == campaign_id_of(n),
            None => forall|n: u64| id@ != campaign_id_of(n),
        },
{
    if id.len() != 8 {
        proof {
            assert forall|n: u64| id@ != campaign_id_of(n) by {
                assert(campaign_id_of(n).len() == 8);
            }
        }
        return None;
    }
    let n: u64 = ((id[0] as u64) << 56) | ((id[1] as u64) << 48) | ((id[2] as u64) << 40) | ((
    id[3] as u64) << 32) | ((id[4] as u64) << 24) | ((id[5] as u64) << 16) | ((id[6] as u64) << 8)
        | (id[7] as u64);
    proof {
        assert(n == id_number(id@));
        lemma_campaign_id_of_id_number(id@);
    }
    Some(n)
}

} // verus!
