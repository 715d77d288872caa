use vstd::prelude::*;

use crate::account::AccountId;
use crate::errors::AgentVaultError;

verus! {

/// Protocol-wide configuration: one instance process-wide, created once and
/// mutated only by its admin. The lifecycle engine reads it and never writes
/// it; fee rates are copied into each escrow at creation time, so later
/// changes here never affect an existing escrow.
#[derive(Clone, Copy, PartialEq, Eq, Structural, Debug)]
pub struct ProtocolConfig {
    /// The admin authority: may update this config and transfer authority.
    pub admin: AccountId,
    /// The identity that receives protocol fees.
    pub fee_authority: AccountId,
    /// Protocol fee in basis points (50 = 0.5%); at most 500.
    pub protocol_fee_bps: u16,
    /// Arbitrator fee in basis points (100 = 1.0%); at most 500.
    pub arbitrator_fee_bps: u16,
    /// Minimum escrow amount, in the smallest token unit; always positive.
    pub min_escrow_amount: u64,
    /// Maximum escrow amount; 0 means no limit.
    pub max_escrow_amount: u64,
    /// Minimum grace period in seconds; always positive.
    pub min_grace_period: i64,
    /// Maximum deadline offset in seconds from creation; always positive.
    pub max_deadline_seconds: i64,
    /// Emergency stop: when set, fund-moving and dispute operations are
    /// rejected. The pure refund paths (cancel, expire) stay available so a
    /// pause can never trap client funds, and the admin can always unpause.
    pub paused: bool,
}

impl ProtocolConfig {
    /// Well-formedness: what `initialize_protocol` establishes and
    /// `update_protocol_config` preserves.
    pub open spec fn wf(self) -> bool {
        &&& self.protocol_fee_bps <= 500
        &&& self.arbitrator_fee_bps <= 500
        &&& self.min_escrow_amount > 0
        &&& self.min_grace_period > 0
        &&& self.max_deadline_seconds > 0
        &&& self.fee_authority != (AccountId { key: 0 })
    }
}

/// A partial update to the protocol config: `None` keeps the current value.
#[derive(Clone, Copy, Debug)]
pub struct ConfigUpdate {
    pub fee_authority: Option<AccountId>,
    pub protocol_fee_bps: Option<u16>,
    pub arbitrator_fee_bps: Option<u16>,
    pub min_escrow_amount: Option<u64>,
    pub max_escrow_amount: Option<u64>,
    pub min_grace_period: Option<i64>,
    pub max_deadline_seconds: Option<i64>,
    pub paused: Option<bool>,
    pub new_admin: Option<AccountId>,
}

/// The first reason, if any, why `initialize_protocol` rejects its inputs.
pub open spec fn initialize_check(
    fee_authority: AccountId,
    protocol_fee_bps: u16,
    arbitrator_fee_bps: u16,
    min_escrow_amount: u64,
    min_grace_period: i64,
    max_deadline_seconds: i64,
) -> Option<AgentVaultError> {
    if protocol_fee_bps > 500 {
        Some(AgentVaultError::FeeTooHigh)
    } else if arbitrator_fee_bps > 500 {
        Some(AgentVaultError::FeeTooHigh)
    } else if min_escrow_amount == 0 {
        Some(AgentVaultError::AmountZero)
    } else if fee_authority == (AccountId { key: 0 }) {
        Some(AgentVaultError::InvalidFeeAccount)
    } else if min_grace_period <= 0 {
        Some(AgentVaultError::InvalidGracePeriod)
    } else if max_deadline_seconds <= 0 {
        Some(AgentVaultError::DeadlineInPast)
    } else {
        None
    }
}

/// Create the protocol config. Called once by the deployer, who becomes the
/// admin. Fee rates are capped at 5% each; the protocol starts unpaused.
pub fn initialize_protocol(
    admin: AccountId,
    fee_authority: AccountId,
    protocol_fee_bps: u16,
    arbitrator_fee_bps: u16,
    min_escrow_amount: u64,
    max_escrow_amount: u64,
    min_grace_period: i64,
    max_deadline_seconds: i64,
) -> (result: Result<ProtocolConfig, AgentVaultError>)
    ensures
        (match initialize_check(
            fee_authority,
            protocol_fee_bps,
            arbitrator_fee_bps,
            min_escrow_amount,
            min_grace_period,
            max_deadline_seconds,
        ) {
            Some(e) => result == Err::<ProtocolConfig, AgentVaultError>(e),
            None => ({
                &&& result matches Ok(c)
                &&& c == (ProtocolConfig {
                    admin,
                    fee_authority,
                    protocol_fee_bps,
                    arbitrator_fee_bps,
                    min_escrow_amount,
                    max_escrow_amount,
                    min_grace_period,
                    max_deadline_seconds,
                    paused: false,
                })
                &&& c.wf()
            }),
        }),
{
    if protocol_fee_bps > 500 {
        return Err(AgentVaultError::FeeTooHigh);
    }
    if arbitrator_fee_bps > 500 {
        return Err(AgentVaultError::FeeTooHigh);
    }
    if min_escrow_amount == 0 {
        return Err(AgentVaultError::AmountZero);
    }
    if fee_authority == AccountId::default() {
        return Err(AgentVaultError::InvalidFeeAccount);
    }
    if min_grace_period <= 0 {
        return Err(AgentVaultError::InvalidGracePeriod);
    }
    if max_deadline_seconds <= 0 {
        return Err(AgentVaultError::DeadlineInPast);
    }
    Ok(ProtocolConfig {
        admin,
        fee_authority,
        protocol_fee_bps,
        arbitrator_fee_bps,
        min_escrow_amount,
        max_escrow_amount,
        min_grace_period,
        max_deadline_seconds,
        paused: false,
    })
}

/// The first reason, if any, why `update_protocol_config` rejects an update.
pub open spec fn update_check(
    config: ProtocolConfig,
    caller: AccountId,
    update: ConfigUpdate,
) -> Option<AgentVaultError> {
    if caller != config.admin {
        Some(AgentVaultError::UnauthorizedAdmin)
    } else if update.fee_authority matches Some(f) && f == (AccountId { key: 0 }) {
        Some(AgentVaultError::InvalidFeeAccount)
    } else if update.protocol_fee_bps matches Some(b) && b > 500 {
        Some(AgentVaultError::FeeTooHigh)
    } else if update.arbitrator_fee_bps matches Some(b) && b > 500 {
        Some(AgentVaultError::FeeTooHigh)
    } else if update.min_escrow_amount matches Some(m) && m == 0 {
        Some(AgentVaultError::AmountZero)
    } else if update.min_grace_period matches Some(g) && g <= 0 {
        Some(AgentVaultError::InvalidGracePeriod)
    } else if update.max_deadline_seconds matches Some(d) && d <= 0 {
        Some(AgentVaultError::DeadlineInPast)
    } else {
        None
    }
}

/// The config after an accepted update: each `Some` field replaces the
/// current value, each `None` keeps it.
pub open spec fn apply_update(config: ProtocolConfig, update: ConfigUpdate) -> ProtocolConfig {
    ProtocolConfig {
        admin: match update.new_admin {
            Some(a) => a,
            None => config.admin,
        },
        fee_authority: match update.fee_authority {
            Some(f) => f,
            None => config.fee_authority,
        },
        protocol_fee_bps: match update.protocol_fee_bps {
            Some(b) => b,
            None => config.protocol_fee_bps,
        },
        arbitrator_fee_bps: match update.arbitrator_fee_bps {
            Some(b) => b,
            None => config.arbitrator_fee_bps,
        },
        min_escrow_amount: match update.min_escrow_amount {
            Some(m) => m,
            None => config.min_escrow_amount,
        },
        max_escrow_amount: match update.max_escrow_amount {
            Some(m) => m,
            None => config.max_escrow_amount,
        },
        min_grace_period: match update.min_grace_period {
            Some(g) => g,
            None => config.min_grace_period,
        },
        max_deadline_seconds: match update.max_deadline_seconds {
            Some(d) => d,
            None => config.max_deadline_seconds,
        },
        paused: match update.paused {
            Some(p) => p,
            None => config.paused,
        },
    }
}

/// Partially update the config. Admin only; every field is optional. The
/// update is atomic: a rejected field leaves the whole config untouched.
/// This operation is never blocked by the pause flag, so the admin can
/// always unpause.
pub fn update_protocol_config(
    config: &mut ProtocolConfig,
    caller: AccountId,
    update: ConfigUpdate,
) -> (result: Result<(), AgentVaultError>)
    requires
        old(config).wf(),
    ensures
        final(config).wf(),
        (match update_check(*old(config), caller, update) {
            Some(e) => result == Err::<(), AgentVaultError>(e) && *final(config) == *old(config),
            None => result == Ok::<(), AgentVaultError>(()) && *final(config) == apply_update(
                *old(config),
                update,
            ),
        }),
{
    if caller != config.admin {
        return Err(AgentVaultError::UnauthorizedAdmin);
    }
    if let Some(f) = update.fee_authority {
        if f == AccountId::default() {
            return Err(AgentVaultError::InvalidFeeAccount);
        }
    }
    if let Some(b) = update.protocol_fee_bps {
        if b > 500 {
            return Err(AgentVaultError::FeeTooHigh);
        }
    }
    if let Some(b) = update.arbitrator_fee_bps {
        if b > 500 {
            return Err(AgentVaultError::FeeTooHigh);
        }
    }
    if let Some(m) = update.min_escrow_amount {
        if m == 0 {
            return Err(AgentVaultError::AmountZero);
        }
    }
    if let Some(g) = update.min_grace_period {
        if g <= 0 {
            return Err(AgentVaultError::InvalidGracePeriod);
        }
    }
    if let Some(d) = update.max_deadline_seconds {
        if d <= 0 {
            return Err(AgentVaultError::DeadlineInPast);
        }
    }
    if let Some(a) = update.new_admin {
        config.admin = a;
    }
    if let Some(f) = update.fee_authority {
        config.fee_authority = f;
    }
    if let Some(b) = update.protocol_fee_bps {
        config.protocol_fee_bps = b;
    }
    if let Some(b) = update.arbitrator_fee_bps {
        config.arbitrator_fee_bps = b;
    }
    if let Some(m) = update.min_escrow_amount {
        config.min_escrow_amount = m;
    }
    if let Some(m) = update.max_escrow_amount {
        config.max_escrow_amount = m;
    }
    if let Some(g) = update.min_grace_period {
        config.min_grace_period = g;
    }
    if let Some(d) = update.max_deadline_seconds {
        config.max_deadline_seconds = d;
    }
    if let Some(p) = update.paused {
        config.paused = p;
    }
    Ok(())
}

} // verus!
