use vstd::prelude::*;

use crate::address::Address;

verus! {

/// The kind of an accepted action.
#[derive(Clone, Copy, Debug, PartialEq, Eq, Structural)]
pub enum AuditAction {
    Deposit,
    Withdraw,
    SchedulePayout,
    ExecutePayout,
    CancelPayout,
    AddUser,
    AddRecipient,
    PauseTreasury,
    UnpauseTreasury,
    SpendingLimitReset,
    TokenGateSet,
    EpochDurationUpdated,
    TokenDeposit,
    TokenPayout,
    InitializeTreasury,
    SpendingLimitUpdated,
}

/// One immutable record of an accepted action.
#[derive(Clone, Copy, Debug)]
pub struct AuditLog {
    pub action: AuditAction,
    pub treasury: Address,
    pub initiator: Address,
    pub target: Option<Address>,
    pub amount: u64,
    pub timestamp: i64,
    pub token_mint: Option<Address>,
}

/// The record with the given fields.
pub open spec fn audit_entry(
    action: AuditAction,
    treasury: Address,
    initiator: Address,
    target: Option<Address>,
    amount: u64,
    timestamp: i64,
    token_mint: Option<Address>,
) -> AuditLog {
    AuditLog { action, treasury, initiator, target, amount, timestamp, token_mint }
}

/// An append-only sequence of audit records.
pub struct AuditTrail {
    entries: Vec<AuditLog>,
}

impl View for AuditTrail {
    type V = Seq<AuditLog>;

    closed spec fn view(&self) -> Seq<AuditLog> {
        self.entries@
    }
}

impl AuditTrail {
    pub fn new() -> (r: AuditTrail)
        ensures
            r@ == Seq::<AuditLog>::empty(),
    {
        AuditTrail { entries: Vec::new() }
    }

    /// Appends one record.
    pub fn record(&mut self, entry: AuditLog)
        ensures
            final(self)@ == old(self)@.push(entry),
    {
        self.entries.push(entry);
    }

    pub fn len(&self) -> (r: usize)
        ensures
            r == self@.len(),
    {
        self.entries.len()
    }

    pub fn get(&self, i: usize) -> (r: AuditLog)
        requires
            i < self@.len(),
        ensures
            r == self@[i as int],
    {
        self.entries[i]
    }
}

} // verus!
