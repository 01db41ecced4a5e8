//! The ledger's general properties, each stated over the model in
//! [`crate::lifecycle`] — the same spec functions the executable operations'
//! contracts use — and proved once and for all.

use crate::campaign::AccountId;
use crate::campaign::CampaignView;
use crate::campaign::Error;
use crate::ident::campaign_id_of;
use crate::ident::id_number;
use crate::ident::lemma_campaign_id_lex_increases;
use crate::ident::lemma_id_number_of_campaign_id;
use crate::ident::lex_less;
use crate::lifecycle::campaign_at;
use crate::lifecycle::close_error;
use crate::lifecycle::closed_at;
use crate::lifecycle::created;
use crate::lifecycle::donate_error;
use crate::lifecycle::donated;
use crate::lifecycle::is_registered;
use crate::lifecycle::lemma_registered_number;
use crate::lifecycle::lemma_registered_same_len;
use crate::lifecycle::withdraw_error;
use crate::lifecycle::withdrawn;
use vstd::prelude::*;

verus! {

/// Creation monotonicity: identifiers handed out by successive creations
/// are strictly increasing — the `m`-th creation's identifier encodes `m`,
/// so a later creation's identifier encodes a strictly larger sequence
/// number and is lexicographically larger byte for byte, and no identifier
/// is ever handed out twice.
pub proof fn lemma_creation_monotonic(m: u64, n: u64)
    requires
        1 <= m < n,
    ensures
        id_number(campaign_id_of(m)) == m,
        id_number(campaign_id_of(n)) == n,
        lex_less(campaign_id_of(m), campaign_id_of(n)),
        campaign_id_of(m) != campaign_id_of(n),
{
    lemma_id_number_of_campaign_id(m);
    lemma_id_number_of_campaign_id(n);
    lemma_campaign_id_lex_increases(m, n);
}

/// Creation counting: each creation appends one campaign, so the count reads
/// back exactly the number of creations performed.
pub proof fn lemma_created_count(s: Seq<CampaignView>, c: CampaignView)
    ensures
        created(s, c).len() == s.len() + 1,
{
}

/// The sum of a sequence of donation amounts.
pub open spec fn total(amounts: Seq<u128>) -> int
    decreases amounts.len(),
{
    if amounts.len() == 0 {
        0
    } else {
        amounts[0] + total(amounts.drop_first())
    }
}

pub proof fn lemma_total_nonneg(amounts: Seq<u128>)
    ensures
        total(amounts) >= 0,
    decreases amounts.len(),
{
    if amounts.len() > 0 {
        lemma_total_nonneg(amounts.drop_first());
    }
}

/// The state after donating `amounts`, one donation at a time, to the
/// campaign `id`.
pub open spec fn donated_all(s: Seq<CampaignView>, id: Seq<u8>, amounts: Seq<u128>) -> Seq<
    CampaignView,
>
    decreases amounts.len(),
{
    if amounts.len() == 0 {
        s
    } else {
        donated_all(donated(s, id, amounts[0]), id, amounts.drop_first())
    }
}

/// Donation accumulation: after any sequence of donations with amounts
/// `a1 ... an` to a campaign, its balance has grown by exactly `a1 + ... + an`.
/// Contributor identities cannot matter: a donation's effect on the state,
/// [`donated`], does not mention the contributor at all.
pub proof fn lemma_donation_accumulation(s: Seq<CampaignView>, id: Seq<u8>, amounts: Seq<u128>)
    requires
        is_registered(s, id),
        campaign_at(s, id).balance + total(amounts) <= u128::MAX,
    ensures
        donated_all(s, id, amounts).len() == s.len(),
        campaign_at(donated_all(s, id, amounts), id).balance == campaign_at(s, id).balance + total(
            amounts,
        ),
    decreases amounts.len(),
{
    if amounts.len() > 0 {
        let rest = amounts.drop_first();
        let s1 = donated(s, id, amounts[0]);
        lemma_registered_number(s, id);
        lemma_total_nonneg(rest);
        lemma_registered_same_len(s, s1, id);
        lemma_donation_accumulation(s1, id, rest);
    }
}

/// Removing one amount from a sequence removes exactly its contribution to
/// the sum.
pub proof fn lemma_total_remove(amounts: Seq<u128>, i: int)
    requires
        0 <= i < amounts.len(),
    ensures
        total(amounts) == amounts[i] + total(amounts.remove(i)),
    decreases i,
{
    if i == 0 {
        assert(amounts.remove(0) =~= amounts.drop_first());
    } else {
        let rest = amounts.drop_first();
        lemma_total_remove(rest, i - 1);
        assert(amounts.remove(i).drop_first() =~= rest.remove(i - 1));
        assert(total(amounts.remove(i)) == amounts[0] + total(rest.remove(i - 1)));
    }
}

/// The sum of the amounts depends only on which amounts are donated, not on
/// the order they arrive in.
pub proof fn lemma_total_permutation(a: Seq<u128>, b: Seq<u128>)
    requires
        a.to_multiset() == b.to_multiset(),
    ensures
        total(a) == total(b),
    decreases a.len(),
{
    broadcast use vstd::seq_lib::group_to_multiset_ensures;

    if a.len() == 0 {
        assert(b.to_multiset().len() == 0);
    } else {
        let x = a[0];
        assert(a.contains(x));
        assert(a.to_multiset().count(x) > 0);
        assert(b.to_multiset().count(x) > 0);
        assert(b.contains(x));
        let j = choose|j: int| 0 <= j < b.len() && b[j] == x;
        lemma_total_remove(a, 0);
        lemma_total_remove(b, j);
        assert(a.remove(0).to_multiset() =~= b.remove(j).to_multiset());
        lemma_total_permutation(a.remove(0), b.remove(j));
    }
}

/// Donation accumulation is order-independent: donating the same amounts in
/// any order leaves the campaign with the same balance.
pub proof fn lemma_donation_order_irrelevant(
    s: Seq<CampaignView>,
    id: Seq<u8>,
    a: Seq<u128>,
    b: Seq<u128>,
)
    requires
        is_registered(s, id),
        a.to_multiset() == b.to_multiset(),
        campaign_at(s, id).balance + total(a) <= u128::MAX,
    ensures
        campaign_at(donated_all(s, id, a), id).balance == campaign_at(
            donated_all(s, id, b),
            id,
        ).balance,
{
    lemma_total_permutation(a, b);
    lemma_donation_accumulation(s, id, a);
    lemma_donation_accumulation(s, id, b);
}

/// Donation order does not matter: two donations to the same campaign land
/// on the same state in either order.
pub proof fn lemma_donation_commutes(s: Seq<CampaignView>, id: Seq<u8>, a: u128, b: u128)
    requires
        is_registered(s, id),
        campaign_at(s, id).balance + a + b <= u128::MAX,
    ensures
        donated(donated(s, id, a), id, b) == donated(donated(s, id, b), id, a),
{
    lemma_registered_number(s, id);
    assert(donated(donated(s, id, a), id, b) =~= donated(donated(s, id, b), id, a));
}

/// No donation after close: once a campaign was closed at time `t`, a
/// donation at any strictly later time is rejected as `CampaignEnded`.
pub proof fn lemma_no_donation_after_close(s: Seq<CampaignView>, id: Seq<u8>, t: u64, now: u64)
    requires
        is_registered(s, id),
        t < now,
    ensures
        donate_error(closed_at(s, id, t), id, now) == Some(Error::CampaignEnded),
{
    lemma_registered_number(s, id);
    lemma_registered_same_len(s, closed_at(s, id, t), id);
}

/// A donation to a campaign whose deadline has already passed is rejected as
/// `CampaignEnded`, whoever contributes.
pub proof fn lemma_no_donation_past_deadline(s: Seq<CampaignView>, id: Seq<u8>, now: u64)
    requires
        is_registered(s, id),
        campaign_at(s, id).deadline < now,
    ensures
        donate_error(s, id, now) == Some(Error::CampaignEnded),
{
}

/// Close authorization: a close by anyone but the initiator is rejected as
/// `NotCampaignInitiator`, whatever the time and the campaign's state.
pub proof fn lemma_close_authorization(
    s: Seq<CampaignView>,
    id: Seq<u8>,
    caller: AccountId,
    now: u64,
)
    requires
        is_registered(s, id),
        caller != campaign_at(s, id).initiator,
    ensures
        close_error(s, id, caller, now) == Some(Error::NotCampaignInitiator),
{
}

/// Closing is final: once a campaign was closed at time `t`, a second close
/// from that very second on — including at `t` itself — is rejected as
/// `CampaignNotLive`, even for the initiator.
pub proof fn lemma_close_is_final(s: Seq<CampaignView>, id: Seq<u8>, t: u64, now2: u64)
    requires
        is_registered(s, id),
        t <= now2,
    ensures
        close_error(closed_at(s, id, t), id, campaign_at(s, id).initiator, now2) == Some(
            Error::CampaignNotLive,
        ),
{
    lemma_registered_number(s, id);
    lemma_registered_same_len(s, closed_at(s, id, t), id);
}

/// A deadline only ever decreases: a close that succeeds pulls the deadline
/// to the close time, strictly earlier than it was, so closing can only
/// shorten a campaign's life.
pub proof fn lemma_close_never_extends_deadline(
    s: Seq<CampaignView>,
    id: Seq<u8>,
    caller: AccountId,
    now: u64,
)
    requires
        close_error(s, id, caller, now) is None,
    ensures
        campaign_at(closed_at(s, id, now), id).deadline == now,
        campaign_at(closed_at(s, id, now), id).deadline < campaign_at(s, id).deadline,
{
    lemma_registered_number(s, id);
}

/// At most one withdrawal: a withdrawal leaves the balance at exactly zero,
/// and a repeat attempt by the initiator on the closed campaign is rejected
/// as `NoFundsWithdraw`.
pub proof fn lemma_at_most_one_withdrawal(s: Seq<CampaignView>, id: Seq<u8>, now2: u64)
    requires
        is_registered(s, id),
        campaign_at(s, id).deadline <= now2,
    ensures
        campaign_at(withdrawn(s, id), id).balance == 0,
        withdraw_error(withdrawn(s, id), id, campaign_at(s, id).initiator, now2) == Some(
            Error::NoFundsWithdraw,
        ),
{
    lemma_registered_number(s, id);
    lemma_registered_same_len(s, withdrawn(s, id), id);
}

/// Withdrawal gating: before the deadline has been reached, a withdrawal by
/// the initiator is rejected as `CampaignIsLive`, regardless of the balance.
pub proof fn lemma_withdrawal_gating(s: Seq<CampaignView>, id: Seq<u8>, now: u64)
    requires
        is_registered(s, id),
        campaign_at(s, id).deadline > now,
    ensures
        withdraw_error(s, id, campaign_at(s, id).initiator, now) == Some(Error::CampaignIsLive),
{
}

} // verus!
