//! The mathematical model of the ledger: its state is the sequence of
//! campaigns in order of creation, the campaign with sequence number `n`
//! (numbered from 1) sitting at index `n - 1`. The transitions and the error
//! rules here are what the executable operations' contracts state, and what
//! the laws in [`crate::laws`] are proved about.
//!
//! A campaign is open while its deadline is strictly in the future; whether
//! it is open is derived from the current time, never stored. The boundaries
//! differ per operation: in the exact second the deadline is reached, a
//! donation is still accepted and a withdrawal is already permitted — so in
//! that one second both can succeed, and a withdrawal can even be followed
//! by a further donation — while a close is already rejected as not live.

use crate::campaign::AccountId;
use crate::campaign::CampaignView;
use crate::campaign::Error;
use crate::ident::campaign_id_of;
use crate::ident::id_number;
use crate::ident::lemma_id_number_of_campaign_id;
use vstd::prelude::*;

verus! {

/// Whether `id` identifies a campaign of the ledger state `s`: it must be
/// the identifier of a sequence number that has been handed out.
pub open spec fn is_registered(s: Seq<CampaignView>, id: Seq<u8>) -> bool {
    exists|n: u64| 1 <= n <= s.len() && id == campaign_id_of(n)
}

/// The campaign that `id` identifies.
pub open spec fn campaign_at(s: Seq<CampaignView>, id: Seq<u8>) -> CampaignView
    recommends
        is_registered(s, id),
{
    s[id_number(id) - 1]
}

/// A registered identifier decodes to its campaign's sequence number.
pub proof fn lemma_registered_number(s: Seq<CampaignView>, id: Seq<u8>)
    requires
        is_registered(s, id),
    ensures
        1 <= id_number(id) <= s.len(),
        id == campaign_id_of(id_number(id)),
{
    let n = choose|n: u64| 1 <= n <= s.len() && id == campaign_id_of(n);
    lemma_id_number_of_campaign_id(n);
}

/// Registration only depends on how many campaigns there are, so any
/// transition that keeps the length keeps every registered identifier
/// registered.
pub proof fn lemma_registered_same_len(s1: Seq<CampaignView>, s2: Seq<CampaignView>, id: Seq<u8>)
    requires
        is_registered(s1, id),
        s1.len() == s2.len(),
    ensures
        is_registered(s2, id),
{
    let n = choose|n: u64| 1 <= n <= s1.len() && id == campaign_id_of(n);
    assert(1 <= n <= s2.len() && id == campaign_id_of(n));
}

/// The state after a creation: the new campaign is appended, so it gets the
/// next sequence number.
pub open spec fn created(s: Seq<CampaignView>, c: CampaignView) -> Seq<CampaignView> {
    s.push(c)
}

/// The state after a donation of `amount` to the campaign `id`: only that
/// campaign's balance changes, and it grows by `amount`. Which identity
/// donated does not enter the state at all.
pub open spec fn donated(s: Seq<CampaignView>, id: Seq<u8>, amount: u128) -> Seq<CampaignView>
    recommends
        is_registered(s, id),
        campaign_at(s, id).balance + amount <= u128::MAX,
{
    let i = id_number(id) - 1;
    let c = s[i];
    s.update(
        i,
        CampaignView {
            title: c.title,
            description: c.description,
            initiator: c.initiator,
            deadline: c.deadline,
            balance: (c.balance + amount) as u128,
        },
    )
}

/// The state after closing the campaign `id` at time `now`: its deadline is
/// pulled to `now`, which forces the derived state to Closed from `now` on.
/// Closing always strictly decreases a deadline, since it only succeeds
/// while `deadline > now`.
pub open spec fn closed_at(s: Seq<CampaignView>, id: Seq<u8>, now: u64) -> Seq<CampaignView>
    recommends
        is_registered(s, id),
{
    let i = id_number(id) - 1;
    let c = s[i];
    s.update(
        i,
        CampaignView {
            title: c.title,
            description: c.description,
            initiator: c.initiator,
            deadline: now,
            balance: c.balance,
        },
    )
}

/// The state after withdrawing from the campaign `id`: its balance is
/// exactly zero, forever.
pub open spec fn withdrawn(s: Seq<CampaignView>, id: Seq<u8>) -> Seq<CampaignView>
    recommends
        is_registered(s, id),
{
    let i = id_number(id) - 1;
    let c = s[i];
    s.update(
        i,
        CampaignView {
            title: c.title,
            description: c.description,
            initiator: c.initiator,
            deadline: c.deadline,
            balance: 0,
        },
    )
}

/// Why a donation to `id` at time `now` is rejected, or `None` when it is
/// accepted. A donation is accepted exactly while the campaign exists and
/// its deadline has not passed; the contributor's identity never matters.
pub open spec fn donate_error(s: Seq<CampaignView>, id: Seq<u8>, now: u64) -> Option<Error> {
    if !is_registered(s, id) {
        Some(Error::NotCampaign)
    } else if campaign_at(s, id).deadline < now {
        Some(Error::CampaignEnded)
    } else {
        None
    }
}

/// Why a close of `id` by `caller` at time `now` is rejected, or `None` when
/// it succeeds: the campaign must exist, only the initiator may close, and
/// the campaign must still be open — its deadline strictly in the future. A
/// campaign whose deadline is at or before `now` is already closed, so
/// closing it again is rejected, even in the very second it closed.
pub open spec fn close_error(s: Seq<CampaignView>, id: Seq<u8>, caller: AccountId, now: u64) -> Option<
    Error,
> {
    if !is_registered(s, id) {
        Some(Error::NotCampaign)
    } else if campaign_at(s, id).initiator != caller {
        Some(Error::NotCampaignInitiator)
    } else if campaign_at(s, id).deadline <= now {
        Some(Error::CampaignNotLive)
    } else {
        None
    }
}

/// Why a withdrawal from `id` by `caller` at time `now` is rejected, or
/// `None` when it succeeds: the campaign must exist, only the initiator may
/// withdraw, the campaign must be closed, and there must be funds left.
pub open spec fn withdraw_error(
    s: Seq<CampaignView>,
    id: Seq<u8>,
    caller: AccountId,
    now: u64,
) -> Option<Error> {
    if !is_registered(s, id) {
        Some(Error::NotCampaign)
    } else if campaign_at(s, id).initiator != caller {
        Some(Error::NotCampaignInitiator)
    } else if campaign_at(s, id).deadline > now {
        Some(Error::CampaignIsLive)
    } else if campaign_at(s, id).balance == 0 {
        Some(Error::NoFundsWithdraw)
    } else {
        None
    }
}

} // verus!
