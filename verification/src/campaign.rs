//! The data the ledger keeps and hands out: campaign records, the errors an
//! operation can return, and the events and transfer instructions produced
//! for the hosting runtime.

use vstd::prelude::*;

verus! {

/// An identity handle supplied by the hosting runtime. The ledger never looks
/// inside an identity; it only compares identities for equality.
#[derive(PartialEq, Eq, Structural, Clone, Copy, Debug)]
pub struct AccountId(pub u64);

/// The monetary unit in which donations and balances are counted.
pub type Balance = u128;

/// A campaign identifier: the big-endian byte encoding of the campaign's
/// sequence number.
pub type CampaignId = Vec<u8>;

/// The sole persisted entity: one fundraising campaign.
pub struct Campaign {
    /// Display name, immutable after creation.
    pub title: String,
    /// Free text, immutable after creation.
    pub description: String,
    /// The creator; only this identity may close the campaign or withdraw.
    pub initiator: AccountId,
    /// Close time in seconds. A campaign is open while `deadline` has not
    /// passed; whether it is open is derived from the current time, never
    /// stored.
    pub deadline: u64,
    /// Accumulated donations; zeroed by the one possible withdrawal.
    pub balance: Balance,
}

/// The mathematical value of a [`Campaign`].
pub struct CampaignView {
    pub title: Seq<char>,
    pub description: Seq<char>,
    pub initiator: AccountId,
    pub deadline: u64,
    pub balance: Balance,
}

impl View for Campaign {
    type V = CampaignView;

    open spec fn view(&self) -> CampaignView {
        CampaignView {
            title: self.title@,
            description: self.description@,
            initiator: self.initiator,
            deadline: self.deadline,
            balance: self.balance,
        }
    }
}

/// Why an operation was rejected. Every rejection leaves the ledger unchanged.
#[derive(Debug, PartialEq, Eq, Structural, Clone, Copy)]
pub enum Error {
    /// A donation was attempted after the campaign's deadline.
    CampaignEnded,
    /// The referenced identifier has no record.
    NotCampaign,
    /// The caller is not the campaign's initiator.
    NotCampaignInitiator,
    /// A close was attempted on a campaign that is no longer live.
    CampaignNotLive,
    /// A withdrawal was attempted while the campaign is still live.
    CampaignIsLive,
    /// A withdrawal was attempted with nothing left to withdraw.
    NoFundsWithdraw,
}

/// Event handed to the host's notification channel on a successful donation.
pub struct FundsDonated {
    pub id_campaign: CampaignId,
    pub sender: AccountId,
    pub value: Balance,
}

/// Event handed to the host's notification channel on a successful close.
pub struct CampaignEnded {
    pub id_campaign: CampaignId,
    pub initiator: AccountId,
}

/// Instruction to the host to transfer `amount` out of custody to
/// `beneficiary`; produced by a successful withdrawal. Performing the
/// transfer is the host's work, and a host whose transfer fails must abort
/// rather than continue with the balance already zeroed.
#[derive(PartialEq, Eq, Structural, Clone, Copy, Debug)]
pub struct Payout {
    pub beneficiary: AccountId,
    pub amount: Balance,
}

} // verus!
