//! A campaign-based fund-custody ledger.
//!
//! Parties register fundraising campaigns with a deadline, contributors add
//! funds while a campaign is open, the initiator may close a campaign early,
//! and once closed the initiator may withdraw the accumulated balance exactly
//! once. The hosting runtime supplies caller identity, the current time and
//! value transfer; every operation takes them as explicit arguments and
//! returns the events and transfer instructions for the host to deliver.

pub mod campaign;
pub mod ident;
pub mod laws;
pub mod ledger;
pub mod lifecycle;

pub use campaign::AccountId;
pub use campaign::Balance;
pub use campaign::Campaign;
pub use campaign::CampaignEnded;
pub use campaign::CampaignId;
pub use campaign::Error;
pub use campaign::FundsDonated;
pub use campaign::Payout;
pub use ledger::Charity;
