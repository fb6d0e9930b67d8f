use vstd::prelude::*;

verus! {

/// The error codes that the contract reports through the host.
#[derive(Copy, Clone, Debug, PartialEq, Eq, Structural, PartialOrd, Ord)]
pub enum ContractError {
    AlreadyInitialized,
    AmountMustBePositive,
    IntervalMustBePositive,
    NoSubscriptionFound,
    SubscriptionInactive,
    IntervalNotElapsed,
    NotInitialized,
    InsufficientAllowance,
    GracePeriodElapsed,
    MerchantNotWhitelisted,
    IntervalTooShort,
}

/// The numeric code under which each error is reported to callers.
pub open spec fn error_code(e: ContractError) -> u32 {
    match e {
        ContractError::AlreadyInitialized => 1,
        ContractError::AmountMustBePositive => 2,
        ContractError::IntervalMustBePositive => 3,
        ContractError::NoSubscriptionFound => 4,
        ContractError::SubscriptionInactive => 5,
        ContractError::IntervalNotElapsed => 6,
        ContractError::NotInitialized => 7,
        ContractError::InsufficientAllowance => 8,
        ContractError::GracePeriodElapsed => 9,
        ContractError::MerchantNotWhitelisted => 10,
        ContractError::IntervalTooShort => 27,
    }
}

impl ContractError {
    /// The numeric code of this error.
    pub fn code(&self) -> (c: u32)
        ensures
            c == error_code(*self),
    {
        match self {
            ContractError::AlreadyInitialized => 1,
            ContractError::AmountMustBePositive => 2,
            ContractError::IntervalMustBePositive => 3,
            ContractError::NoSubscriptionFound => 4,
            ContractError::SubscriptionInactive => 5,
            ContractError::IntervalNotElapsed => 6,
            ContractError::NotInitialized => 7,
            ContractError::InsufficientAllowance => 8,
            ContractError::GracePeriodElapsed => 9,
            ContractError::MerchantNotWhitelisted => 10,
            ContractError::IntervalTooShort => 27,
        }
    }
}

} // verus!

verus! {

/// Why the contract refuses a call.
///
/// The host aborts the call on every refusal, so nothing that the call
/// would have written is kept.  A `Code` refusal is reported with the
/// error's numeric code; every other refusal aborts with the message that
/// `message` gives.
#[derive(Copy, Clone, Debug, PartialEq, Eq, Structural)]
pub enum Refusal {
    Code(ContractError),
    AlreadyInitialized,
    AdminAlreadySet,
    AmountNotPositive,
    IntervalNotPositive,
    InsufficientAllowance,
    NoSubscription,
    SubscriptionNotActive,
    SubscriptionPaused,
    MinIntervalNotPositive,
    LimitNotPositive,
    DailyLimitExceeded,
    ArithmeticOverflow,
}

/// The abort message of a refusal that carries no error code.
pub open spec fn refusal_message(r: Refusal) -> Option<Seq<char>> {
    match r {
        Refusal::Code(_) => None,
        Refusal::AlreadyInitialized => Some("already initialized"@),
        Refusal::AdminAlreadySet => Some("admin already set"@),
        Refusal::AmountNotPositive => Some("amount must be positive"@),
        Refusal::IntervalNotPositive => Some("interval must be positive"@),
        Refusal::InsufficientAllowance => Some("insufficient allowance"@),
        Refusal::NoSubscription => Some("no subscription found"@),
        Refusal::SubscriptionNotActive => Some("subscription is not active"@),
        Refusal::SubscriptionPaused => Some("subscription is paused"@),
        Refusal::MinIntervalNotPositive => Some("min interval must be positive"@),
        Refusal::LimitNotPositive => Some("limit must be positive"@),
        Refusal::DailyLimitExceeded => Some("daily limit exceeded"@),
        Refusal::ArithmeticOverflow => Some("arithmetic overflow"@),
    }
}

impl Refusal {
    /// The error code under which the refusal is reported, if it has one.
    pub fn error(&self) -> (e: Option<ContractError>)
        ensures
            e == (match *self {
                Refusal::Code(c) => Some(c),
                _ => None::<ContractError>,
            }),
    {
        match self {
            Refusal::Code(c) => Some(*c),
            _ => None,
        }
    }

    /// The abort message of a refusal that has no error code.
    pub fn message(&self) -> (m: Option<&'static str>)
        ensures
            m is Some <==> refusal_message(*self) is Some,
            m matches Some(s) ==> s@ == refusal_message(*self)->0,
    {
        match self {
            Refusal::Code(_) => None,
            Refusal::AlreadyInitialized => Some("already initialized"),
            Refusal::AdminAlreadySet => Some("admin already set"),
            Refusal::AmountNotPositive => Some("amount must be positive"),
            Refusal::IntervalNotPositive => Some("interval must be positive"),
            Refusal::InsufficientAllowance => Some("insufficient allowance"),
            Refusal::NoSubscription => Some("no subscription found"),
            Refusal::SubscriptionNotActive => Some("subscription is not active"),
            Refusal::SubscriptionPaused => Some("subscription is paused"),
            Refusal::MinIntervalNotPositive => Some("min interval must be positive"),
            Refusal::LimitNotPositive => Some("limit must be positive"),
            Refusal::DailyLimitExceeded => Some("daily limit exceeded"),
            Refusal::ArithmeticOverflow => Some("arithmetic overflow"),
        }
    }
}

} // verus!
