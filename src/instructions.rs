use vstd::prelude::*;

use crate::address::Address;
use crate::audit::{audit_entry, AuditAction, AuditLog, AuditTrail};
use crate::epoch::{plan_spend, spend_outcome, SpendPlan};
use crate::error::ErrorCode;
use crate::state::{
    role_of_code, Role, Treasury, TreasuryUser, WhitelistedRecipient, MAX_RECIPIENT_NAME_LEN,
    MIN_EPOCH_DURATION,
};
use vstd::utf8::encode_utf8;

verus! {

// ---------------------------------------------------------------------------
// Authorization
// ---------------------------------------------------------------------------
/// Why `user` does not let `caller` act on `t` with the `required` role, if
/// it does not: the record must be the caller's own, in this treasury and
/// active (else `UnauthorizedUser`), and must carry the role (else `denied`).
pub open spec fn auth_error(
    t: Treasury,
    user: TreasuryUser,
    caller: Address,
    required: Role,
    denied: ErrorCode,
) -> Option<ErrorCode> {
    if user.user != caller || user.treasury != t.key || !user.is_active {
        Some(ErrorCode::UnauthorizedUser)
    } else if !user.permits(required) {
        Some(denied)
    } else {
        None
    }
}

pub fn authorize(
    t: &Treasury,
    user: &TreasuryUser,
    caller: Address,
    required: Role,
    denied: ErrorCode,
) -> (r: Result<(), ErrorCode>)
    ensures
        match r {
            Ok(()) => auth_error(*t, *user, caller, required, denied) is None,
            Err(e) => auth_error(*t, *user, caller, required, denied) == Some(e),
        },
{
    if !(user.user == caller) || !(user.treasury == t.key) || !user.is_active {
        return Err(ErrorCode::UnauthorizedUser);
    }
    if !user.has_permission(required) {
        return Err(denied);
    }
    Ok(())
}

// ---------------------------------------------------------------------------
// Epoch policy applied to a treasury
// ---------------------------------------------------------------------------
/// The epoch policy on the native counter.
pub open spec fn native_spend(t: Treasury, amount: u64, now: i64) -> Result<SpendPlan, ErrorCode> {
    spend_outcome(
        t.last_epoch_start,
        t.epoch_duration,
        t.spending_limit,
        t.epoch_id,
        t.epoch_spending,
        true,
        amount,
        now,
    )
}

/// The treasury after a native debit of `amount` under plan `p`.
pub open spec fn after_native_spend(t: Treasury, amount: u64, p: SpendPlan) -> Treasury {
    Treasury {
        total_funds: (t.total_funds - amount) as u64,
        last_epoch_start: p.window_start,
        epoch_spending: p.new_spent,
        epoch_id: p.window_id,
        ..t
    }
}

/// The window-reset record that a spend under `p` appends, if any.
pub open spec fn reset_records(
    t: Treasury,
    initiator: Address,
    p: SpendPlan,
    now: i64,
    token_mint: Option<Address>,
) -> Seq<AuditLog> {
    if p.rolled {
        seq![
            audit_entry(
                AuditAction::SpendingLimitReset,
                t.key,
                initiator,
                None,
                p.previous_spent,
                now,
                token_mint,
            ),
        ]
    } else {
        Seq::empty()
    }
}

pub(crate) fn record_reset(
    trail: &mut AuditTrail,
    t: &Treasury,
    initiator: Address,
    p: SpendPlan,
    now: i64,
    token_mint: Option<Address>,
)
    ensures
        final(trail)@ == old(trail)@ + reset_records(*t, initiator, p, now, token_mint),
{
    if p.rolled {
        trail.record(
            AuditLog {
                action: AuditAction::SpendingLimitReset,
                treasury: t.key,
                initiator,
                target: None,
                amount: p.previous_spent,
                timestamp: now,
                token_mint,
            },
        );
    }
    assert(final(trail)@ =~= old(trail)@ + reset_records(*t, initiator, p, now, token_mint));
}

// ---------------------------------------------------------------------------
// initialize_treasury
// ---------------------------------------------------------------------------
pub open spec fn initialize_error(epoch_duration: u64, spending_limit: u64) -> Option<ErrorCode> {
    if epoch_duration == 0 {
        Some(ErrorCode::InvalidEpochDuration)
    } else if spending_limit == 0 {
        Some(ErrorCode::InvalidSpendingLimit)
    } else {
        None
    }
}

/// Creates a treasury whose first epoch window starts at `now`, and the
/// admin's own Admin assignment.
pub fn initialize_treasury(
    key: Address,
    admin: Address,
    epoch_duration: u64,
    spending_limit: u64,
    now: i64,
    trail: &mut AuditTrail,
) -> (r: Result<(Treasury, TreasuryUser), ErrorCode>)
    ensures
        match r {
            Ok((t, u)) => {
                &&& initialize_error(epoch_duration, spending_limit) is None
                &&& t == Treasury {
                    key,
                    admin,
                    epoch_duration,
                    spending_limit,
                    total_funds: 0,
                    last_epoch_start: now,
                    epoch_spending: 0,
                    epoch_id: 0,
                    next_payout_index: 0,
                    is_paused: false,
                    gate_token_mint: None,
                }
                &&& u == TreasuryUser { user: admin, role: Role::Admin, is_active: true, treasury: key }
                &&& t.wf()
                &&& final(trail)@ == old(trail)@.push(
                    audit_entry(
                        AuditAction::InitializeTreasury,
                        key,
                        admin,
                        None,
                        spending_limit,
                        now,
                        None,
                    ),
                )
            },
            Err(e) => {
                &&& initialize_error(epoch_duration, spending_limit) == Some(e)
                &&& final(trail)@ == old(trail)@
            },
        },
{
    if epoch_duration == 0 {
        return Err(ErrorCode::InvalidEpochDuration);
    }
    if spending_limit == 0 {
        return Err(ErrorCode::InvalidSpendingLimit);
    }
    let t = Treasury {
        key,
        admin,
        epoch_duration,
        spending_limit,
        total_funds: 0,
        last_epoch_start: now,
        epoch_spending: 0,
        epoch_id: 0,
        next_payout_index: 0,
        is_paused: false,
        gate_token_mint: None,
    };
    let u = TreasuryUser { user: admin, role: Role::Admin, is_active: true, treasury: key };
    trail.record(
        AuditLog {
            action: AuditAction::InitializeTreasury,
            treasury: key,
            initiator: admin,
            target: None,
            amount: spending_limit,
            timestamp: now,
            token_mint: None,
        },
    );
    Ok((t, u))
}

// ---------------------------------------------------------------------------
// deposit
// ---------------------------------------------------------------------------
pub open spec fn deposit_error(t: Treasury, amount: u64, timestamp: i64, now: i64) -> Option<
    ErrorCode,
> {
    if amount == 0 {
        Some(ErrorCode::InvalidDepositAmount)
    } else if timestamp > now {
        Some(ErrorCode::InvalidTimestamp)
    } else if t.total_funds as int + amount as int > u64::MAX as int {
        Some(ErrorCode::ArithmeticOverflow)
    } else {
        None
    }
}

/// Adds a native deposit to the treasury's balance. Anyone may deposit.
pub fn deposit(
    t: &mut Treasury,
    depositor: Address,
    amount: u64,
    timestamp: i64,
    now: i64,
    trail: &mut AuditTrail,
) -> (r: Result<(), ErrorCode>)
    ensures
        match r {
            Ok(()) => {
                &&& deposit_error(*old(t), amount, timestamp, now) is None
                &&& *final(t) == (Treasury {
                    total_funds: (old(t).total_funds + amount) as u64,
                    ..*old(t)
                })
                &&& old(t).wf() ==> final(t).wf()
                &&& final(trail)@ == old(trail)@.push(
                    audit_entry(
                        AuditAction::Deposit,
                        old(t).key,
                        depositor,
                        None,
                        amount,
                        timestamp,
                        None,
                    ),
                )
            },
            Err(e) => {
                &&& deposit_error(*old(t), amount, timestamp, now) == Some(e)
                &&& *final(t) == *old(t)
                &&& final(trail)@ == old(trail)@
            },
        },
{
    if amount == 0 {
        return Err(ErrorCode::InvalidDepositAmount);
    }
    if timestamp > now {
        return Err(ErrorCode::InvalidTimestamp);
    }
    let total = match t.total_funds.checked_add(amount) {
        Some(v) => v,
        None => {
            return Err(ErrorCode::ArithmeticOverflow);
        },
    };
    t.total_funds = total;
    trail.record(
        AuditLog {
            action: AuditAction::Deposit,
            treasury: t.key,
            initiator: depositor,
            target: None,
            amount,
            timestamp,
            token_mint: None,
        },
    );
    Ok(())
}

// ---------------------------------------------------------------------------
// withdraw
// ---------------------------------------------------------------------------
pub open spec fn withdraw_error(
    t: Treasury,
    user: TreasuryUser,
    caller: Address,
    amount: u64,
    timestamp: i64,
    now: i64,
) -> Option<ErrorCode> {
    match auth_error(t, user, caller, Role::Treasurer, ErrorCode::UnauthorizedWithdrawal) {
        Some(e) => Some(e),
        None => if t.is_paused {
            Some(ErrorCode::TreasuryPaused)
        } else if amount == 0 {
            Some(ErrorCode::InvalidWithdrawAmount)
        } else if timestamp > now {
            Some(ErrorCode::InvalidTimestamp)
        } else if t.total_funds < amount {
            Some(ErrorCode::InsufficientFunds)
        } else {
            match native_spend(t, amount, now) {
                Err(e) => Some(e),
                Ok(_) => None,
            }
        },
    }
}

/// Pays `amount` of the native balance to `recipient`, under the epoch
/// policy.
pub fn withdraw(
    t: &mut Treasury,
    user: &TreasuryUser,
    caller: Address,
    recipient: Address,
    amount: u64,
    timestamp: i64,
    now: i64,
    trail: &mut AuditTrail,
) -> (r: Result<(), ErrorCode>)
    ensures
        match r {
            Ok(()) => {
                let p = native_spend(*old(t), amount, now)->Ok_0;
                &&& withdraw_error(*old(t), *user, caller, amount, timestamp, now) is None
                &&& *final(t) == after_native_spend(*old(t), amount, p)
                &&& old(t).wf() ==> final(t).wf()
                &&& final(t).epoch_spending <= final(t).spending_limit
                &&& final(trail)@ == (old(trail)@ + reset_records(
                    *old(t),
                    caller,
                    p,
                    now,
                    None,
                )).push(
                    audit_entry(
                        AuditAction::Withdraw,
                        old(t).key,
                        caller,
                        Some(recipient),
                        amount,
                        timestamp,
                        None,
                    ),
                )
            },
            Err(e) => {
                &&& withdraw_error(*old(t), *user, caller, amount, timestamp, now) == Some(e)
                &&& *final(t) == *old(t)
                &&& final(trail)@ == old(trail)@
            },
        },
{
    authorize(t, user, caller, Role::Treasurer, ErrorCode::UnauthorizedWithdrawal)?;
    if t.is_paused {
        return Err(ErrorCode::TreasuryPaused);
    }
    if amount == 0 {
        return Err(ErrorCode::InvalidWithdrawAmount);
    }
    if timestamp > now {
        return Err(ErrorCode::InvalidTimestamp);
    }
    if t.total_funds < amount {
        return Err(ErrorCode::InsufficientFunds);
    }
    let p = plan_spend(
        t.last_epoch_start,
        t.epoch_duration,
        t.spending_limit,
        t.epoch_id,
        t.epoch_spending,
        true,
        amount,
        now,
    )?;
    record_reset(trail, t, caller, p, now, None);
    t.total_funds = t.total_funds - amount;
    t.last_epoch_start = p.window_start;
    t.epoch_spending = p.new_spent;
    t.epoch_id = p.window_id;
    trail.record(
        AuditLog {
            action: AuditAction::Withdraw,
            treasury: t.key,
            initiator: caller,
            target: Some(recipient),
            amount,
            timestamp,
            token_mint: None,
        },
    );
    Ok(())
}

// ---------------------------------------------------------------------------
// pause_treasury / unpause_treasury
// ---------------------------------------------------------------------------
/// Why setting the pause flag to `paused` fails, if it does: only an admin
/// may, and only as a change of state.
pub open spec fn pause_error(t: Treasury, user: TreasuryUser, caller: Address, paused: bool) -> Option<
    ErrorCode,
> {
    match auth_error(t, user, caller, Role::Admin, ErrorCode::UnauthorizedPauseAction) {
        Some(e) => Some(e),
        None => if paused && t.is_paused {
            Some(ErrorCode::TreasuryAlreadyPaused)
        } else if !paused && !t.is_paused {
            Some(ErrorCode::TreasuryAlreadyUnpaused)
        } else {
            None
        },
    }
}

fn set_pause(
    t: &mut Treasury,
    user: &TreasuryUser,
    caller: Address,
    paused: bool,
    now: i64,
    trail: &mut AuditTrail,
) -> (r: Result<(), ErrorCode>)
    ensures
        match r {
            Ok(()) => {
                &&& pause_error(*old(t), *user, caller, paused) is None
                &&& *final(t) == (Treasury { is_paused: paused, ..*old(t) })
                &&& old(t).wf() ==> final(t).wf()
                &&& final(trail)@ == old(trail)@.push(
                    audit_entry(
                        if paused {
                            AuditAction::PauseTreasury
                        } else {
                            AuditAction::UnpauseTreasury
                        },
                        old(t).key,
                        caller,
                        None,
                        0,
                        now,
                        None,
                    ),
                )
            },
            Err(e) => {
                &&& pause_error(*old(t), *user, caller, paused) == Some(e)
                &&& *final(t) == *old(t)
                &&& final(trail)@ == old(trail)@
            },
        },
{
    authorize(t, user, caller, Role::Admin, ErrorCode::UnauthorizedPauseAction)?;
    if paused && t.is_paused {
        return Err(ErrorCode::TreasuryAlreadyPaused);
    }
    if !paused && !t.is_paused {
        return Err(ErrorCode::TreasuryAlreadyUnpaused);
    }
    t.is_paused = paused;
    let action = if paused {
        AuditAction::PauseTreasury
    } else {
        AuditAction::UnpauseTreasury
    };
    trail.record(
        AuditLog {
            action,
            treasury: t.key,
            initiator: caller,
            target: None,
            amount: 0,
            timestamp: now,
            token_mint: None,
        },
    );
    Ok(())
}

/// Pauses withdrawals and payouts; fails if already paused.
pub fn pause_treasury(
    t: &mut Treasury,
    user: &TreasuryUser,
    caller: Address,
    now: i64,
    trail: &mut AuditTrail,
) -> (r: Result<(), ErrorCode>)
    ensures
        match r {
            Ok(()) => {
                &&& pause_error(*old(t), *user, caller, true) is None
                &&& *final(t) == (Treasury { is_paused: true, ..*old(t) })
                &&& old(t).wf() ==> final(t).wf()
                &&& final(trail)@ == old(trail)@.push(
                    audit_entry(AuditAction::PauseTreasury, old(t).key, caller, None, 0, now, None),
                )
            },
            Err(e) => {
                &&& pause_error(*old(t), *user, caller, true) == Some(e)
                &&& *final(t) == *old(t)
                &&& final(trail)@ == old(trail)@
            },
        },
{
    set_pause(t, user, caller, true, now, trail)
}

/// Lifts a pause; fails if not paused.
pub fn unpause_treasury(
    t: &mut Treasury,
    user: &TreasuryUser,
    caller: Address,
    now: i64,
    trail: &mut AuditTrail,
) -> (r: Result<(), ErrorCode>)
    ensures
        match r {
            Ok(()) => {
                &&& pause_error(*old(t), *user, caller, false) is None
                &&& *final(t) == (Treasury { is_paused: false, ..*old(t) })
                &&& old(t).wf() ==> final(t).wf()
                &&& final(trail)@ == old(trail)@.push(
                    audit_entry(
                        AuditAction::UnpauseTreasury,
                        old(t).key,
                        caller,
                        None,
                        0,
                        now,
                        None,
                    ),
                )
            },
            Err(e) => {
                &&& pause_error(*old(t), *user, caller, false) == Some(e)
                &&& *final(t) == *old(t)
                &&& final(trail)@ == old(trail)@
            },
        },
{
    set_pause(t, user, caller, false, now, trail)
}

// ---------------------------------------------------------------------------
// set_token_gate
// ---------------------------------------------------------------------------
/// Replaces the gating asset; `None` disables gating. Admin only.
pub fn set_token_gate(
    t: &mut Treasury,
    user: &TreasuryUser,
    caller: Address,
    token_mint: Option<Address>,
    now: i64,
    trail: &mut AuditTrail,
) -> (r: Result<(), ErrorCode>)
    ensures
        match r {
            Ok(()) => {
                &&& auth_error(
                    *old(t),
                    *user,
                    caller,
                    Role::Admin,
                    ErrorCode::UnauthorizedConfigUpdate,
                ) is None
                &&& *final(t) == (Treasury { gate_token_mint: token_mint, ..*old(t) })
                &&& old(t).wf() ==> final(t).wf()
                &&& final(trail)@ == old(trail)@.push(
                    audit_entry(
                        AuditAction::TokenGateSet,
                        old(t).key,
                        caller,
                        token_mint,
                        0,
                        now,
                        token_mint,
                    ),
                )
            },
            Err(e) => {
                &&& auth_error(
                    *old(t),
                    *user,
                    caller,
                    Role::Admin,
                    ErrorCode::UnauthorizedConfigUpdate,
                ) == Some(e)
                &&& *final(t) == *old(t)
                &&& final(trail)@ == old(trail)@
            },
        },
{
    authorize(t, user, caller, Role::Admin, ErrorCode::UnauthorizedConfigUpdate)?;
    t.gate_token_mint = token_mint;
    trail.record(
        AuditLog {
            action: AuditAction::TokenGateSet,
            treasury: t.key,
            initiator: caller,
            target: token_mint,
            amount: 0,
            timestamp: now,
            token_mint,
        },
    );
    Ok(())
}

// ---------------------------------------------------------------------------
// update_treasury_config
// ---------------------------------------------------------------------------
pub open spec fn config_error(
    t: Treasury,
    user: TreasuryUser,
    caller: Address,
    epoch_duration: Option<u64>,
    spending_limit: Option<u64>,
) -> Option<ErrorCode> {
    match auth_error(t, user, caller, Role::Admin, ErrorCode::UnauthorizedConfigUpdate) {
        Some(e) => Some(e),
        None => if epoch_duration == Some(0u64) {
            Some(ErrorCode::InvalidEpochDuration)
        } else if epoch_duration matches Some(d) && d < MIN_EPOCH_DURATION {
            Some(ErrorCode::EpochDurationTooShort)
        } else if spending_limit == Some(0u64) {
            Some(ErrorCode::InvalidSpendingLimit)
        } else if (epoch_duration is Some || spending_limit is Some) && t.epoch_id == u64::MAX {
            Some(ErrorCode::ArithmeticOverflow)
        } else {
            None
        },
    }
}

/// The treasury after a configuration update. An update of either setting
/// starts a fresh window at `now`, with the next window number and the native
/// counter at 0, so no spend counted under the old settings carries over.
pub open spec fn after_config(
    t: Treasury,
    epoch_duration: Option<u64>,
    spending_limit: Option<u64>,
    now: i64,
) -> Treasury {
    if epoch_duration is None && spending_limit is None {
        t
    } else {
        Treasury {
            epoch_duration: match epoch_duration {
                Some(d) => d,
                None => t.epoch_duration,
            },
            spending_limit: match spending_limit {
                Some(l) => l,
                None => t.spending_limit,
            },
            last_epoch_start: now,
            epoch_spending: 0,
            epoch_id: (t.epoch_id + 1) as u64,
            ..t
        }
    }
}

/// The records of a configuration update: one per setting changed, then the
/// window reset, which carries the native amount spent in the ended window.
pub open spec fn config_records(
    t: Treasury,
    caller: Address,
    epoch_duration: Option<u64>,
    spending_limit: Option<u64>,
    now: i64,
) -> Seq<AuditLog> {
    let first = match epoch_duration {
        Some(d) => seq![
            audit_entry(AuditAction::EpochDurationUpdated, t.key, caller, None, d, now, None),
        ],
        None => Seq::empty(),
    };
    let second = match spending_limit {
        Some(l) => seq![
            audit_entry(AuditAction::SpendingLimitUpdated, t.key, caller, None, l, now, None),
        ],
        None => Seq::empty(),
    };
    let reset = if epoch_duration is None && spending_limit is None {
        Seq::empty()
    } else {
        seq![
            audit_entry(
                AuditAction::SpendingLimitReset,
                t.key,
                caller,
                None,
                t.epoch_spending,
                now,
                None,
            ),
        ]
    };
    first + second + reset
}

/// Updates the epoch duration and/or the spending limit. Admin only. A
/// duration must be at least `MIN_EPOCH_DURATION` and a limit positive. Any
/// change starts a fresh epoch window at `now`.
pub fn update_treasury_config(
    t: &mut Treasury,
    user: &TreasuryUser,
    caller: Address,
    epoch_duration: Option<u64>,
    spending_limit: Option<u64>,
    now: i64,
    trail: &mut AuditTrail,
) -> (r: Result<(), ErrorCode>)
    ensures
        match r {
            Ok(()) => {
                &&& config_error(*old(t), *user, caller, epoch_duration, spending_limit) is None
                &&& *final(t) == after_config(*old(t), epoch_duration, spending_limit, now)
                &&& old(t).wf() ==> final(t).wf()
                &&& final(trail)@ == old(trail)@ + config_records(
                    *old(t),
                    caller,
                    epoch_duration,
                    spending_limit,
                    now,
                )
            },
            Err(e) => {
                &&& config_error(*old(t), *user, caller, epoch_duration, spending_limit) == Some(e)
                &&& *final(t) == *old(t)
                &&& final(trail)@ == old(trail)@
            },
        },
{
    authorize(t, user, caller, Role::Admin, ErrorCode::UnauthorizedConfigUpdate)?;
    if let Some(d) = epoch_duration {
        if d == 0 {
            return Err(ErrorCode::InvalidEpochDuration);
        }
        if d < MIN_EPOCH_DURATION {
            return Err(ErrorCode::EpochDurationTooShort);
        }
    }
    if spending_limit == Some(0u64) {
        return Err(ErrorCode::InvalidSpendingLimit);
    }
    if epoch_duration.is_none() && spending_limit.is_none() {
        return Ok(());
    }
    if t.epoch_id == u64::MAX {
        return Err(ErrorCode::ArithmeticOverflow);
    }
    let ghost t0 = *t;
    let ghost trail0 = trail@;
    if let Some(d) = epoch_duration {
        t.epoch_duration = d;
        trail.record(
            AuditLog {
                action: AuditAction::EpochDurationUpdated,
                treasury: t.key,
                initiator: caller,
                target: None,
                amount: d,
                timestamp: now,
                token_mint: None,
            },
        );
    }
    if let Some(l) = spending_limit {
        t.spending_limit = l;
        trail.record(
            AuditLog {
                action: AuditAction::SpendingLimitUpdated,
                treasury: t.key,
                initiator: caller,
                target: None,
                amount: l,
                timestamp: now,
                token_mint: None,
            },
        );
    }
    trail.record(
        AuditLog {
            action: AuditAction::SpendingLimitReset,
            treasury: t.key,
            initiator: caller,
            target: None,
            amount: t.epoch_spending,
            timestamp: now,
            token_mint: None,
        },
    );
    t.last_epoch_start = now;
    t.epoch_spending = 0;
    t.epoch_id = t.epoch_id + 1;
    assert(trail@ =~= trail0 + config_records(t0, caller, epoch_duration, spending_limit, now));
    Ok(())
}

// ---------------------------------------------------------------------------
// add_treasury_user
// ---------------------------------------------------------------------------
pub open spec fn add_user_error(
    t: Treasury,
    admin_user: TreasuryUser,
    caller: Address,
    role: u8,
) -> Option<ErrorCode> {
    match auth_error(t, admin_user, caller, Role::Admin, ErrorCode::UnauthorizedUser) {
        Some(e) => Some(e),
        None => if role_of_code(role) is None {
            Some(ErrorCode::InvalidRole)
        } else {
            None
        },
    }
}

/// Creates the active role assignment of `user`; `role` is a role code.
/// Only an active admin may assign roles.
pub fn add_treasury_user(
    t: &Treasury,
    admin_user: &TreasuryUser,
    caller: Address,
    user: Address,
    role: u8,
    now: i64,
    trail: &mut AuditTrail,
) -> (r: Result<TreasuryUser, ErrorCode>)
    ensures
        match r {
            Ok(u) => {
                &&& add_user_error(*t, *admin_user, caller, role) is None
                &&& u == TreasuryUser {
                    user,
                    role: role_of_code(role)->Some_0,
                    is_active: true,
                    treasury: t.key,
                }
                &&& final(trail)@ == old(trail)@.push(
                    audit_entry(AuditAction::AddUser, t.key, caller, Some(user), 0, now, None),
                )
            },
            Err(e) => {
                &&& add_user_error(*t, *admin_user, caller, role) == Some(e)
                &&& final(trail)@ == old(trail)@
            },
        },
{
    authorize(t, admin_user, caller, Role::Admin, ErrorCode::UnauthorizedUser)?;
    let r = match Role::from_code(role) {
        Some(r) => r,
        None => {
            return Err(ErrorCode::InvalidRole);
        },
    };
    trail.record(
        AuditLog {
            action: AuditAction::AddUser,
            treasury: t.key,
            initiator: caller,
            target: Some(user),
            amount: 0,
            timestamp: now,
            token_mint: None,
        },
    );
    Ok(TreasuryUser { user, role: r, is_active: true, treasury: t.key })
}

// ---------------------------------------------------------------------------
// add_whitelisted_recipient
// ---------------------------------------------------------------------------
pub open spec fn add_recipient_error(
    t: Treasury,
    user: TreasuryUser,
    caller: Address,
    name: Seq<char>,
) -> Option<ErrorCode> {
    match auth_error(t, user, caller, Role::Admin, ErrorCode::UnauthorizedUser) {
        Some(e) => Some(e),
        None => if encode_utf8(name).len() as usize > MAX_RECIPIENT_NAME_LEN {
            Some(ErrorCode::InvalidRecipientName)
        } else {
            None
        },
    }
}

/// Creates an active whitelist entry for `recipient`, labelled `name` (at
/// most `MAX_RECIPIENT_NAME_LEN` bytes). Admin only.
pub fn add_whitelisted_recipient(
    t: &Treasury,
    user: &TreasuryUser,
    caller: Address,
    recipient: Address,
    name: String,
    now: i64,
    trail: &mut AuditTrail,
) -> (r: Result<WhitelistedRecipient, ErrorCode>)
    ensures
        match r {
            Ok(w) => {
                &&& add_recipient_error(*t, *user, caller, name@) is None
                &&& w.recipient == recipient
                &&& w.name@ == name@
                &&& w.is_active
                &&& w.treasury == t.key
                &&& final(trail)@ == old(trail)@.push(
                    audit_entry(
                        AuditAction::AddRecipient,
                        t.key,
                        caller,
                        Some(recipient),
                        0,
                        now,
                        None,
                    ),
                )
            },
            Err(e) => {
                &&& add_recipient_error(*t, *user, caller, name@) == Some(e)
                &&& final(trail)@ == old(trail)@
            },
        },
{
    authorize(t, user, caller, Role::Admin, ErrorCode::UnauthorizedUser)?;
    if name.as_str().len() > MAX_RECIPIENT_NAME_LEN {
        return Err(ErrorCode::InvalidRecipientName);
    }
    trail.record(
        AuditLog {
            action: AuditAction::AddRecipient,
            treasury: t.key,
            initiator: caller,
            target: Some(recipient),
            amount: 0,
            timestamp: now,
            token_mint: None,
        },
    );
    Ok(WhitelistedRecipient { recipient, name, is_active: true, treasury: t.key })
}

} // verus!
