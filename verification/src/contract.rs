use vstd::prelude::*;

use crate::counters::stored_or_zero;
use crate::errors::Refusal;

verus! {

/// The storage schema version that `migrate` brings the contract to.
pub const CURRENT_SCHEMA_VERSION: u32 = 1;

/// The instance time to live, in ledgers, above which the contract counts
/// as healthy: about one day at five seconds per ledger.
pub const HEALTHY_TTL_LEDGERS: u32 = 17280;

/// The contract.  Its associated functions are the contract's calls and
/// the rules they share; each takes the stored values and the
/// environment's facts that the call reads, and returns what it writes, or
/// the refusal that aborts it.
pub struct FlowPay;

/// A snapshot of the contract's configuration and state.
#[derive(Clone, Copy, Debug, PartialEq, Eq, Structural)]
pub struct HealthReport {
    pub is_healthy: bool,
    pub contract_paused: bool,
    pub token_configured: bool,
    pub admin_configured: bool,
    pub instance_ttl_ledgers: u32,
    pub active_subscription_count: u64,
    pub schema_version: u32,
}

pub open spec fn stored_or_false(stored: Option<bool>) -> bool {
    match stored {
        Some(v) => v,
        None => false,
    }
}

pub open spec fn schema_version(stored: Option<u32>) -> u32 {
    match stored {
        Some(v) => v,
        None => 0,
    }
}

/// The version that `migrate` writes, if it writes one.
pub open spec fn migration(stored: Option<u32>) -> Option<u32> {
    if schema_version(stored) < CURRENT_SCHEMA_VERSION {
        Some(CURRENT_SCHEMA_VERSION)
    } else {
        None
    }
}

pub open spec fn health(
    paused: Option<bool>,
    token_configured: bool,
    admin_configured: bool,
    instance_ttl_ledgers: u32,
    active_count: Option<u64>,
    version: Option<u32>,
) -> HealthReport {
    let contract_paused = stored_or_false(paused);
    HealthReport {
        is_healthy: !contract_paused && token_configured && admin_configured
            && instance_ttl_ledgers > HEALTHY_TTL_LEDGERS,
        contract_paused,
        token_configured,
        admin_configured,
        instance_ttl_ledgers,
        active_subscription_count: stored_or_zero(active_count),
        schema_version: schema_version(version),
    }
}

impl FlowPay {
    /// Configures the contract's token; refused once a token is configured.
    pub fn initialize<A>(token_configured: bool, token: A) -> (res: Result<A, Refusal>)
        ensures
            token_configured ==> res == Err::<A, Refusal>(Refusal::AlreadyInitialized),
            !token_configured ==> res == Ok::<A, Refusal>(token),
    {
        if token_configured {
            Err(Refusal::AlreadyInitialized)
        } else {
            Ok(token)
        }
    }

    /// Sets the contract admin; refused once an admin is set.
    pub fn set_initial_admin<A>(admin_configured: bool, admin: A) -> (res: Result<A, Refusal>)
        ensures
            admin_configured ==> res == Err::<A, Refusal>(Refusal::AdminAlreadySet),
            !admin_configured ==> res == Ok::<A, Refusal>(admin),
    {
        if admin_configured {
            Err(Refusal::AdminAlreadySet)
        } else {
            Ok(admin)
        }
    }

    /// The minimum interval to store; zero is refused.
    pub fn set_min_interval(seconds: u64) -> (res: Result<u64, Refusal>)
        ensures
            seconds == 0 ==> res == Err::<u64, Refusal>(Refusal::MinIntervalNotPositive),
            seconds > 0 ==> res == Ok::<u64, Refusal>(seconds),
    {
        if seconds > 0 {
            Ok(seconds)
        } else {
            Err(Refusal::MinIntervalNotPositive)
        }
    }

    /// The daily spending limit to store; a limit that is not positive is refused.
    pub fn set_daily_limit(limit: i128) -> (res: Result<i128, Refusal>)
        ensures
            limit <= 0 ==> res == Err::<i128, Refusal>(Refusal::LimitNotPositive),
            limit > 0 ==> res == Ok::<i128, Refusal>(limit),
    {
        if limit > 0 {
            Ok(limit)
        } else {
            Err(Refusal::LimitNotPositive)
        }
    }

    /// What the subscriber has spent today, given the stored amount: zero
    /// while none is stored.
    pub fn get_daily_spent(stored: Option<i128>) -> (v: i128)
        ensures
            v == (match stored {
                Some(v) => v,
                None => 0,
            }),
    {
        match stored {
            Some(v) => v,
            None => 0,
        }
    }

    /// Whether the contract is paused, given the stored flag: not while
    /// none is stored.
    pub fn is_contract_paused(stored: Option<bool>) -> (v: bool)
        ensures
            v == stored_or_false(stored),
    {
        match stored {
            Some(v) => v,
            None => false,
        }
    }

    /// The storage schema version, given the stored one: zero while none is stored.
    pub fn get_schema_version(stored: Option<u32>) -> (v: u32)
        ensures
            v == schema_version(stored),
    {
        match stored {
            Some(v) => v,
            None => 0,
        }
    }

    /// Brings the storage schema to the current version: the version to
    /// write, or nothing once the schema is current.
    pub fn migrate(stored: Option<u32>) -> (res: Option<u32>)
        ensures
            res == migration(stored),
    {
        if Self::get_schema_version(stored) < CURRENT_SCHEMA_VERSION {
            Some(CURRENT_SCHEMA_VERSION)
        } else {
            None
        }
    }

    /// A snapshot of the contract's health: healthy when not paused, with a
    /// token and an admin configured, and more than a day of instance time
    /// to live left.
    pub fn contract_health_check(
        paused: Option<bool>,
        token_configured: bool,
        admin_configured: bool,
        instance_ttl_ledgers: u32,
        active_count: Option<u64>,
        version: Option<u32>,
    ) -> (report: HealthReport)
        ensures
            report == health(
                paused,
                token_configured,
                admin_configured,
                instance_ttl_ledgers,
                active_count,
                version,
            ),
    {
        let contract_paused = Self::is_contract_paused(paused);
        let is_healthy = !contract_paused && token_configured && admin_configured
            && instance_ttl_ledgers > HEALTHY_TTL_LEDGERS;
        HealthReport {
            is_healthy,
            contract_paused,
            token_configured,
            admin_configured,
            instance_ttl_ledgers,
            active_subscription_count: Self::get_active_count(active_count),
            schema_version: Self::get_schema_version(version),
        }
    }
}

} // verus!
