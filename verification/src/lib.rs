//! Verified core of a subscription-payment contract.
//!
//! The contract keeps, per subscriber, a recurring payment plan towards a
//! merchant, and charges it once every interval.  The ledger storage, the
//! token contract, authorisation, the ledger clock and events belong to the
//! hosting environment; this crate holds every rule that decides what a
//! call does, over the plain values that the host reads and writes.
//!
//! The account type is a parameter `A`: the rules never look inside an
//! account, they only carry it from one record to the next.
//!
//! - `errors`: the error codes and the refusals that abort a call;
//! - `contract`: the contract type, its configuration calls and health report;
//! - `subscription`: subscribing, charging, one-off payments, cancelling,
//!   pausing and resuming;
//! - `counters`: the active count and the subscriber index with its pages;
//! - `history`: charge history and merchant revenue;
//! - `batch`: the outcome recorded per subscriber in a batch of charges;
//! - `laws`: properties that relate several calls.

pub mod batch;
pub mod contract;
pub mod counters;
pub mod errors;
pub mod history;
pub mod laws;
pub mod subscription;

pub use batch::ChargeResult;
pub use contract::{FlowPay, HealthReport};
pub use counters::Registration;
pub use errors::{ContractError, Refusal};
pub use history::MerchantRevenue;
pub use subscription::{Cancellation, Payment, SubscribeContext, SubscribePlan, Subscription};
