use vstd::prelude::*;

use crate::address::Address;
use crate::error::ErrorCode;

verus! {

/// Shortest epoch duration, in seconds, that a configuration update accepts.
pub const MIN_EPOCH_DURATION: u64 = 3600;

/// Longest recipient label, in bytes.
pub const MAX_RECIPIENT_NAME_LEN: usize = 32;

/// A role that a treasury user may hold.
#[derive(Clone, Copy, Debug, PartialEq, Eq, Structural)]
pub enum Role {
    Admin,
    Treasurer,
}

/// The role that a wire code names: 0 is Admin, 1 is Treasurer.
pub open spec fn role_of_code(code: u8) -> Option<Role> {
    if code == 0 {
        Some(Role::Admin)
    } else if code == 1 {
        Some(Role::Treasurer)
    } else {
        None
    }
}

impl Role {
    pub fn from_code(code: u8) -> (r: Option<Role>)
        ensures
            r == role_of_code(code),
    {
        if code == 0 {
            Some(Role::Admin)
        } else if code == 1 {
            Some(Role::Treasurer)
        } else {
            None
        }
    }

    pub fn code(&self) -> (r: u8)
        ensures
            role_of_code(r) == Some(*self),
    {
        match self {
            Role::Admin => 0,
            Role::Treasurer => 1,
        }
    }
}

/// The role assignment of one user in one treasury.
#[derive(Clone, Copy, Debug)]
pub struct TreasuryUser {
    pub user: Address,
    pub role: Role,
    pub is_active: bool,
    pub treasury: Address,
}

impl TreasuryUser {
    /// An Admin requirement is met by an Admin only; a Treasurer requirement
    /// by an Admin or a Treasurer; in both cases only while the assignment is
    /// active.
    pub open spec fn permits(&self, required: Role) -> bool {
        self.is_active && match required {
            Role::Admin => self.role == Role::Admin,
            Role::Treasurer => self.role == Role::Admin || self.role == Role::Treasurer,
        }
    }

    pub fn is_admin(&self) -> (r: bool)
        ensures
            r == (self.role == Role::Admin && self.is_active),
    {
        self.role == Role::Admin && self.is_active
    }

    pub fn is_treasurer(&self) -> (r: bool)
        ensures
            r == (self.role == Role::Treasurer && self.is_active),
    {
        self.role == Role::Treasurer && self.is_active
    }

    pub fn has_permission(&self, required_role: Role) -> (r: bool)
        ensures
            r == self.permits(required_role),
    {
        if !self.is_active {
            return false;
        }
        match required_role {
            Role::Admin => self.role == Role::Admin,
            Role::Treasurer => self.role == Role::Admin || self.role == Role::Treasurer,
        }
    }
}

/// An allow-list entry for a payout recipient.
#[derive(Clone, Debug)]
pub struct WhitelistedRecipient {
    pub recipient: Address,
    pub name: String,
    pub is_active: bool,
    pub treasury: Address,
}

/// The ledger and policy record of one treasury.
#[derive(Clone, Copy, Debug)]
pub struct Treasury {
    /// The treasury's own reference.
    pub key: Address,
    pub admin: Address,
    /// Length of a spending epoch, in seconds.
    pub epoch_duration: u64,
    /// Most that may be spent of one asset within one epoch.
    pub spending_limit: u64,
    /// Native balance held.
    pub total_funds: u64,
    /// Start of the current epoch window, shared by every asset.
    pub last_epoch_start: i64,
    /// Native amount spent within the current window.
    pub epoch_spending: u64,
    /// Number of the current epoch window; every fresh window gets the next.
    pub epoch_id: u64,
    /// Sequence number that the next payout schedule receives.
    pub next_payout_index: u64,
    pub is_paused: bool,
    /// Asset that a recipient must hold for a payout; none disables gating.
    pub gate_token_mint: Option<Address>,
}

impl Treasury {
    /// The data-model invariant of a treasury.
    pub open spec fn wf(&self) -> bool {
        &&& self.epoch_duration > 0
        &&& self.spending_limit > 0
        &&& self.epoch_spending <= self.spending_limit
    }

    /// Hands out the next payout sequence number and advances the counter;
    /// fails, changing nothing, when the counter is exhausted.
    pub fn get_next_payout_index(&mut self) -> (r: Result<u64, ErrorCode>)
        ensures
            match r {
                Ok(index) => {
                    &&& index == old(self).next_payout_index
                    &&& index < u64::MAX
                    &&& *final(self) == (Treasury {
                        next_payout_index: (index + 1) as u64,
                        ..*old(self)
                    })
                },
                Err(e) => {
                    &&& e == ErrorCode::ArithmeticOverflow
                    &&& old(self).next_payout_index == u64::MAX
                    &&& *final(self) == *old(self)
                },
            },
    {
        let index = self.next_payout_index;
        if index == u64::MAX {
            return Err(ErrorCode::ArithmeticOverflow);
        }
        self.next_payout_index = index + 1;
        Ok(index)
    }
}

/// A planned disbursement to one recipient, one-time or recurring.
#[derive(Clone, Copy, Debug)]
pub struct PayoutSchedule {
    pub recipient: Address,
    pub amount: u64,
    pub schedule_time: i64,
    pub recurring: bool,
    /// Seconds between executions of a recurring payout.
    pub recurrence_interval: u64,
    /// Time of the last execution; 0 means never executed.
    pub last_executed: i64,
    pub is_active: bool,
    pub created_by: Address,
    pub treasury: Address,
    pub index: u64,
    /// Asset paid out; none means the native currency.
    pub token_mint: Option<Address>,
}

impl PayoutSchedule {
    /// Whether the payout may be executed at `now`.
    pub open spec fn due_at(&self, now: i64) -> bool {
        &&& self.is_active
        &&& if self.recurring {
            if self.last_executed == 0 {
                now >= self.schedule_time
            } else {
                now as int >= self.last_executed as int + self.recurrence_interval as int
            }
        } else {
            now >= self.schedule_time && self.last_executed == 0
        }
    }

    pub fn is_due(&self, current_time: i64) -> (r: bool)
        ensures
            r == self.due_at(current_time),
    {
        if !self.is_active {
            return false;
        }
        if self.recurring {
            if self.last_executed == 0 {
                current_time >= self.schedule_time
            } else {
                (current_time as i128) >= (self.last_executed as i128)
                    + (self.recurrence_interval as i128)
            }
        } else {
            current_time >= self.schedule_time && self.last_executed == 0
        }
    }
}

/// The balance of one fungible asset held by a treasury, with its own
/// spending counter for the treasury's epoch window.
#[derive(Clone, Copy, Debug)]
pub struct TokenBalance {
    pub treasury: Address,
    pub token_mint: Address,
    pub balance: u64,
    /// Amount of this asset spent within the window that `epoch_id` names.
    pub epoch_spending: u64,
    /// Number of the window in which `epoch_spending` was counted; the counter
    /// stands for nothing once the treasury's window has moved on.
    pub epoch_id: u64,
}

impl TokenBalance {
    /// Whether this balance's counter stays within the spending limit of
    /// treasury `t`: it was counted in no later window than `t`'s current
    /// one, and if in that one, it is within the limit. A counter of an
    /// earlier window counts as 0.
    pub open spec fn within_limit(&self, t: Treasury) -> bool {
        &&& self.epoch_id <= t.epoch_id
        &&& self.epoch_id == t.epoch_id ==> self.epoch_spending <= t.spending_limit
    }

    pub fn new(treasury: Address, token_mint: Address) -> (r: TokenBalance)
        ensures
            r.treasury == treasury,
            r.token_mint == token_mint,
            r.balance == 0,
            r.epoch_spending == 0,
            r.epoch_id == 0,
    {
        TokenBalance { treasury, token_mint, balance: 0, epoch_spending: 0, epoch_id: 0 }
    }
}

} // verus!
