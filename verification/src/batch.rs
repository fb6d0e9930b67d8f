use vstd::prelude::*;

use crate::errors::{ContractError, Refusal};
use crate::contract::FlowPay;
use crate::subscription::Subscription;

verus! {

/// The outcome of charging one subscriber in a batch.  A refused charge is
/// recorded and does not abort the batch.
#[derive(Clone, Copy, Debug, PartialEq, Eq, Structural)]
pub enum ChargeResult {
    Charged,
    NoSubscription,
    Inactive,
    Paused,
    IntervalNotElapsed,
    GracePeriodElapsed,
    Failed,
}

pub open spec fn result_of(r: Option<Refusal>) -> ChargeResult {
    match r {
        None => ChargeResult::Charged,
        Some(Refusal::Code(ContractError::NoSubscriptionFound)) => ChargeResult::NoSubscription,
        Some(Refusal::SubscriptionNotActive) => ChargeResult::Inactive,
        Some(Refusal::SubscriptionPaused) => ChargeResult::Paused,
        Some(Refusal::Code(ContractError::IntervalNotElapsed)) => ChargeResult::IntervalNotElapsed,
        Some(Refusal::Code(ContractError::GracePeriodElapsed)) => ChargeResult::GracePeriodElapsed,
        Some(_) => ChargeResult::Failed,
    }
}

impl FlowPay {
    /// What a batch records for one subscriber, given the outcome of `charge`.
    pub fn charge_result<A>(outcome: &Result<Subscription<A>, Refusal>) -> (res: ChargeResult)
        ensures
            res == result_of(
                match *outcome {
                    Ok(_) => None,
                    Err(r) => Some(r),
                },
            ),
    {
        match outcome {
            Ok(_) => ChargeResult::Charged,
            Err(Refusal::Code(ContractError::NoSubscriptionFound)) => ChargeResult::NoSubscription,
            Err(Refusal::SubscriptionNotActive) => ChargeResult::Inactive,
            Err(Refusal::SubscriptionPaused) => ChargeResult::Paused,
            Err(Refusal::Code(ContractError::IntervalNotElapsed)) => ChargeResult::IntervalNotElapsed,
            Err(Refusal::Code(ContractError::GracePeriodElapsed)) => ChargeResult::GracePeriodElapsed,
            Err(_) => ChargeResult::Failed,
        }
    }
}

} // verus!
