//! The ledger itself: the durable registry of campaigns together with the
//! four operations of the campaign lifecycle — create, donate, close,
//! withdraw — and the queries. Each operation takes the caller identity and
//! the current time as explicit arguments from the hosting runtime, is
//! validated against the registry, and either mutates exactly one campaign
//! or returns a typed error and leaves the ledger unchanged.

use crate::campaign::AccountId;
use crate::campaign::Balance;
use crate::campaign::Campaign;
use crate::campaign::CampaignEnded;
use crate::campaign::CampaignId;
use crate::campaign::CampaignView;
use crate::campaign::Error;
use crate::campaign::FundsDonated;
use crate::campaign::Payout;
use crate::ident::campaign_id_of;
use crate::ident::decode_campaign_id;
use crate::ident::encode_campaign_id;
use crate::ident::id_number;
use crate::ident::lemma_id_number_of_campaign_id;
use crate::lifecycle::campaign_at;
use crate::lifecycle::close_error;
use crate::lifecycle::closed_at;
use crate::lifecycle::created;
use crate::lifecycle::donate_error;
use crate::lifecycle::donated;
use crate::lifecycle::is_registered;
use crate::lifecycle::withdraw_error;
use crate::lifecycle::withdrawn;
use vstd::prelude::*;

verus! {

/// The campaign registry and the operations on it. The abstract value of a
/// ledger, `self@`, is the sequence of its campaigns in order of creation;
/// the campaign with sequence number `n` (numbered from 1) sits at index
/// `n - 1` and is identified by `campaign_id_of(n)`.
pub struct Charity {
    campaigns: Vec<Campaign>,
    campaign_count: u64,
}

impl View for Charity {
    type V = Seq<CampaignView>;

    closed spec fn view(&self) -> Seq<CampaignView> {
        Seq::new(self.campaigns@.len(), |i: int| self.campaigns@[i]@)
    }
}

impl Charity {
    /// The registry's internal invariant: the stored counter counts exactly
    /// the campaigns created. Every constructor establishes it and every
    /// operation preserves it.
    pub closed spec fn wf(&self) -> bool {
        self.campaign_count as int == self.campaigns@.len()
    }

    /// A fresh ledger with no campaigns.
    pub fn new() -> (r: Self)
        ensures
            r.wf(),
            r@ == Seq::<CampaignView>::empty(),
    {
        let r = Charity { campaigns: Vec::new(), campaign_count: 0 };
        proof {
            assert(r@ =~= Seq::<CampaignView>::empty());
        }
        r
    }

    /// Finds the index of the campaign that `id_campaign` identifies, or
    /// `None` exactly when no campaign has this identifier.
    fn find_index(&self, id_campaign: &CampaignId) -> (r: Option<usize>)
        requires
            self.wf(),
        ensures
            match r {
                Some(i) => {
                    &&& is_registered(self@, id_campaign@)
                    &&& 0 <= i < self@.len()
                    &&& i as int == id_number(id_campaign@) - 1
                    &&& self@[i as int] == campaign_at(self@, id_campaign@)
                },
                None => !is_registered(self@, id_campaign@),
            },
    {
        match decode_campaign_id(id_campaign) {
            Some(n) => {
                if 1 <= n && n <= self.campaign_count {
                    let len = self.campaigns.len();
                    proof {
                        lemma_id_number_of_campaign_id(n);
                        assert(1 <= n <= self@.len() && id_campaign@ == campaign_id_of(n));
                        assert(((n - 1) as int) < (len as int));
                    }
                    Some((n - 1) as usize)
                } else {
                    proof {
                        if is_registered(self@, id_campaign@) {
                            let m = choose|m: u64|
                                1 <= m <= self@.len() && id_campaign@ == campaign_id_of(m);
                            lemma_id_number_of_campaign_id(m);
                            lemma_id_number_of_campaign_id(n);
                            assert(false);
                        }
                    }
                    None
                }
            },
            None => {
                proof {
                    if is_registered(self@, id_campaign@) {
                        let m = choose|m: u64|
                            1 <= m <= self@.len() && id_campaign@ == campaign_id_of(m);
                        assert(id_campaign@ == campaign_id_of(m));
                        assert(false);
                    }
                }
                None
            },
        }
    }

    /// Whether `campaign_id` identifies a campaign of this ledger. Absence
    /// is a normal, expected outcome of a lookup, so the host can ask before
    /// fetching a record.
    pub fn contains_campaign(&self, campaign_id: &CampaignId) -> (r: bool)
        requires
            self.wf(),
        ensures
            r == is_registered(self@, campaign_id@),
    {
        match self.find_index(campaign_id) {
            Some(_) => true,
            None => false,
        }
    }

    /// Registers a new campaign: the next sequence number is allocated, the
    /// record starts with balance zero and the caller as initiator, and the
    /// returned identifier is the big-endian encoding of that number, so
    /// identifiers handed out by successive creations strictly increase.
    ///
    /// The deadline is taken as given: a deadline not in the future creates
    /// a campaign that is already closed.
    pub fn create_campaign(
        &mut self,
        title: String,
        description: String,
        deadline: u64,
        caller: AccountId,
    ) -> (r: CampaignId)
        requires
            old(self).wf(),
            old(self)@.len() < u64::MAX,
        ensures
            final(self).wf(),
            final(self)@ == created(
                old(self)@,
                CampaignView {
                    title: title@,
                    description: description@,
                    initiator: caller,
                    deadline,
                    balance: 0,
                },
            ),
            r@ == campaign_id_of((old(self)@.len() + 1) as u64),
    {
        self.campaign_count = self.campaign_count + 1;
        let id_campaign = encode_campaign_id(self.campaign_count);
        let campaign = Campaign { title, description, initiator: caller, deadline, balance: 0 };
        self.campaigns.push(campaign);
        proof {
            assert(self@ =~= created(
                old(self)@,
                CampaignView {
                    title: title@,
                    description: description@,
                    initiator: caller,
                    deadline,
                    balance: 0,
                },
            ));
        }
        id_campaign
    }

    /// Records a donation that the host has already transferred into
    /// custody: the campaign's balance grows by `amount` while the campaign
    /// exists and its deadline has not passed, and the donation event for
    /// the host's notification channel is returned. On rejection the ledger
    /// is unchanged. Who donates never matters, only the amount.
    pub fn donate_campaign(
        &mut self,
        id_campaign: CampaignId,
        caller: AccountId,
        amount: Balance,
        now: u64,
    ) -> (r: Result<FundsDonated, Error>)
        requires
            old(self).wf(),
            donate_error(old(self)@, id_campaign@, now) is None ==> campaign_at(
                old(self)@,
                id_campaign@,
            ).balance + amount <= u128::MAX,
        ensures
            final(self).wf(),
            match donate_error(old(self)@, id_campaign@, now) {
                Some(e) => final(self)@ == old(self)@ && r == Err::<FundsDonated, Error>(e),
                None => {
                    &&& final(self)@ == donated(old(self)@, id_campaign@, amount)
                    &&& r matches Ok(ev) && ev.id_campaign@ == id_campaign@ && ev.sender == caller
                        && ev.value == amount
                },
            },
    {
        let idx = match self.find_index(&id_campaign) {
            Some(i) => i,
            None => { return Err(Error::NotCampaign) },
        };
        if self.campaigns[idx].deadline < now {
            return Err(Error::CampaignEnded);
        }
        let new_balance = self.campaigns[idx].balance + amount;
        self.campaigns[idx].balance = new_balance;
        proof {
            assert(self@ =~= donated(old(self)@, id_campaign@, amount));
        }
        Ok(FundsDonated { id_campaign, sender: caller, value: amount })
    }

    /// Closes an open campaign early: only its initiator may do so, and only
    /// while the deadline is strictly in the future — a campaign whose
    /// deadline is at or before `now` is already closed and stays so. On
    /// success the deadline is pulled to `now` — always strictly decreased,
    /// never extended — which forces the campaign's derived state to Closed,
    /// and the close event for the host's notification channel is returned.
    /// On rejection the ledger is unchanged; closing is irreversible because
    /// no operation ever raises a deadline.
    pub fn ended_campaign(&mut self, id_campaign: CampaignId, caller: AccountId, now: u64) -> (r:
        Result<CampaignEnded, Error>)
        requires
            old(self).wf(),
        ensures
            final(self).wf(),
            match close_error(old(self)@, id_campaign@, caller, now) {
                Some(e) => final(self)@ == old(self)@ && r == Err::<CampaignEnded, Error>(e),
                None => {
                    &&& final(self)@ == closed_at(old(self)@, id_campaign@, now)
                    &&& r matches Ok(ev) && ev.id_campaign@ == id_campaign@ && ev.initiator
                        == caller
                },
            },
    {
        let idx = match self.find_index(&id_campaign) {
            Some(i) => i,
            None => { return Err(Error::NotCampaign) },
        };
        if self.campaigns[idx].initiator != caller {
            return Err(Error::NotCampaignInitiator);
        }
        if self.campaigns[idx].deadline <= now {
            return Err(Error::CampaignNotLive);
        }
        self.campaigns[idx].deadline = now;
        proof {
            assert(self@ =~= closed_at(old(self)@, id_campaign@, now));
        }
        Ok(CampaignEnded { id_campaign, initiator: caller })
    }

    /// Releases a closed campaign's accumulated balance to its initiator,
    /// exactly once: only the initiator may withdraw, only after the
    /// deadline has been reached, and only while there are funds. The
    /// balance is zeroed and the transfer instruction for the host is
    /// returned; since a second attempt finds balance zero, it is rejected,
    /// so at most one withdrawal can ever succeed. On rejection the ledger
    /// is unchanged.
    pub fn withdraw_campaign_funds(
        &mut self,
        id_campaign: CampaignId,
        caller: AccountId,
        now: u64,
    ) -> (r: Result<Payout, Error>)
        requires
            old(self).wf(),
        ensures
            final(self).wf(),
            match withdraw_error(old(self)@, id_campaign@, caller, now) {
                Some(e) => final(self)@ == old(self)@ && r == Err::<Payout, Error>(e),
                None => {
                    &&& final(self)@ == withdrawn(old(self)@, id_campaign@)
                    &&& r == Ok::<Payout, Error>(
                        Payout {
                            beneficiary: campaign_at(old(self)@, id_campaign@).initiator,
                            amount: campaign_at(old(self)@, id_campaign@).balance,
                        },
                    )
                },
            },
    {
        let idx = match self.find_index(&id_campaign) {
            Some(i) => i,
            None => { return Err(Error::NotCampaign) },
        };
        if self.campaigns[idx].initiator != caller {
            return Err(Error::NotCampaignInitiator);
        }
        if self.campaigns[idx].deadline > now {
            return Err(Error::CampaignIsLive);
        }
        if self.campaigns[idx].balance == 0 {
            return Err(Error::NoFundsWithdraw);
        }
        let amount_withdraw = self.campaigns[idx].balance;
        let beneficiary = self.campaigns[idx].initiator;
        self.campaigns[idx].balance = 0;
        proof {
            assert(self@ =~= withdrawn(old(self)@, id_campaign@));
        }
        Ok(Payout { beneficiary, amount: amount_withdraw })
    }

    /// The number of campaigns created so far.
    pub fn get_campaign_count(&self) -> (r: u64)
        requires
            self.wf(),
        ensures
            r as int == self@.len(),
    {
        self.campaign_count
    }

    /// The identifier of the campaign with sequence number `count`, for
    /// enumeration; the empty identifier when `count` is out of range.
    pub fn get_campaign_id(&self, count: u64) -> (r: CampaignId)
        requires
            self.wf(),
        ensures
            1 <= count <= self@.len() ==> r@ == campaign_id_of(count),
            !(1 <= count <= self@.len()) ==> r@ == Seq::<u8>::empty(),
    {
        if 1 <= count && count <= self.campaign_count {
            encode_campaign_id(count)
        } else {
            let r: Vec<u8> = Vec::new();
            r
        }
    }

    /// A copy of the record of the campaign that `campaign_id` identifies.
    /// The identifier must be registered — check with
    /// [`Self::contains_campaign`] first; absence is the host's fault and
    /// is not turned into an error here. Ruling the missing identifier out
    /// by precondition, rather than returning a typed not-found, keeps this
    /// fetch total and panic-free for every admitted input.
    pub fn get_campaign(&self, campaign_id: CampaignId) -> (r: Campaign)
        requires
            self.wf(),
            is_registered(self@, campaign_id@),
        ensures
            r@ == campaign_at(self@, campaign_id@),
    {
        match self.find_index(&campaign_id) {
            Some(idx) => {
                let c = &self.campaigns[idx];
                Campaign {
                    title: c.title.clone(),
                    description: c.description.clone(),
                    initiator: c.initiator,
                    deadline: c.deadline,
                    balance: c.balance,
                }
            },
            None => vstd::pervasive::unreached(),
        }
    }
}

} // verus!
