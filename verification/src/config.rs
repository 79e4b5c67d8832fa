//! The global configuration: the administrator, the access cost, the fee
//! mode, and the proposal counter. Mutated only by the administrator or by an
//! executed proposal of the matching type.

use vstd::prelude::*;

use crate::errors::ErrorCode;
use crate::identity::AccountId;
use crate::params::{DEFAULT_ACCESS_COST, MAX_BURN_AMOUNT, MIN_BURN_AMOUNT};

verus! {

/// The engine-wide settings, created once at initialization.
#[derive(Clone, Debug)]
pub struct GlobalConfig {
    /// The administrator identity.
    pub admin: AccountId,
    /// What one access pass costs, in raw token units.
    pub access_cost: u64,
    /// Who pays the incidental call fee: 0 = the user, 1 = the sponsor.
    pub fee_mode: u8,
    /// The id the next proposal will take; never reused.
    pub next_proposal_id: u64,
}

impl GlobalConfig {
    /// The configuration's invariant: the access cost stays in its policy
    /// range, the fee mode is one of its two values, and the proposal counter
    /// starts at one and never returns below it.
    pub open spec fn wf(self) -> bool {
        &&& MIN_BURN_AMOUNT <= self.access_cost <= MAX_BURN_AMOUNT
        &&& self.fee_mode <= 1
        &&& self.next_proposal_id >= 1
    }

    /// Creates the configuration a fresh engine starts with: the default
    /// access cost, sponsor-pays fees, and proposal ids starting at one.
    pub fn initialize(admin: AccountId) -> (r: GlobalConfig)
        ensures
            r.admin == admin,
            r.access_cost == DEFAULT_ACCESS_COST,
            r.fee_mode == 1,
            r.next_proposal_id == 1,
            r.wf(),
    {
        GlobalConfig { admin, access_cost: DEFAULT_ACCESS_COST, fee_mode: 1, next_proposal_id: 1 }
    }

    /// What `change_access_cost` answers: only the administrator may set the
    /// cost, and only to a value inside the policy range.
    pub open spec fn change_access_cost_outcome(self, caller: AccountId, new_cost: u64) -> Result<
        (),
        ErrorCode,
    > {
        if caller != self.admin {
            Err(ErrorCode::Unauthorized)
        } else if !(MIN_BURN_AMOUNT <= new_cost <= MAX_BURN_AMOUNT) {
            Err(ErrorCode::InvalidAccessCost)
        } else {
            Ok(())
        }
    }

    /// Sets the access cost. Administrator only; the new cost must lie in the
    /// policy range. No other setting changes.
    pub fn change_access_cost(&mut self, caller: AccountId, new_cost: u64) -> (r: Result<
        (),
        ErrorCode,
    >)
        requires
            old(self).wf(),
        ensures
            r == old(self).change_access_cost_outcome(caller, new_cost),
            r is Ok ==> *final(self) == (GlobalConfig { access_cost: new_cost, ..*old(self) }),
            r is Err ==> *final(self) == *old(self),
            final(self).wf(),
    {
        if !(caller == self.admin) {
            return Err(ErrorCode::Unauthorized);
        }
        if new_cost < MIN_BURN_AMOUNT || new_cost > MAX_BURN_AMOUNT {
            return Err(ErrorCode::InvalidAccessCost);
        }
        self.access_cost = new_cost;
        Ok(())
    }

    /// What `change_fee_mode` answers: only the administrator may set the fee
    /// mode, and only to 0 or 1.
    pub open spec fn change_fee_mode_outcome(self, caller: AccountId, new_mode: u8) -> Result<
        (),
        ErrorCode,
    > {
        if caller != self.admin {
            Err(ErrorCode::Unauthorized)
        } else if new_mode > 1 {
            Err(ErrorCode::InvalidFeeMode)
        } else {
            Ok(())
        }
    }

    /// Sets who pays the call fee. Administrator only; the mode must be 0
    /// (user pays) or 1 (sponsor pays). No other setting changes.
    pub fn change_fee_mode(&mut self, caller: AccountId, new_mode: u8) -> (r: Result<
        (),
        ErrorCode,
    >)
        requires
            old(self).wf(),
        ensures
            r == old(self).change_fee_mode_outcome(caller, new_mode),
            r is Ok ==> *final(self) == (GlobalConfig { fee_mode: new_mode, ..*old(self) }),
            r is Err ==> *final(self) == *old(self),
            final(self).wf(),
    {
        if !(caller == self.admin) {
            return Err(ErrorCode::Unauthorized);
        }
        if new_mode > 1 {
            return Err(ErrorCode::InvalidFeeMode);
        }
        self.fee_mode = new_mode;
        Ok(())
    }
}

} // verus!
