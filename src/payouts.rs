use vstd::prelude::*;

use crate::address::Address;
use crate::audit::{audit_entry, AuditAction, AuditLog, AuditTrail};
use crate::epoch::{plan_spend, spend_outcome, SpendPlan};
use crate::error::ErrorCode;
use crate::instructions::{
    after_native_spend, auth_error, authorize, native_spend, record_reset, reset_records,
};
use crate::state::{PayoutSchedule, Role, TokenBalance, Treasury, TreasuryUser, WhitelistedRecipient};
use crate::token_account::{check_token_account, gate_passes, holds_gate_asset, token_account_error};

verus! {

// ---------------------------------------------------------------------------
// schedule_payout
// ---------------------------------------------------------------------------
pub open spec fn schedule_error(
    t: Treasury,
    user: TreasuryUser,
    caller: Address,
    recipient: WhitelistedRecipient,
    amount: u64,
    schedule_time: i64,
    recurring: bool,
    recurrence_interval: u64,
    now: i64,
) -> Option<ErrorCode> {
    match auth_error(t, user, caller, Role::Treasurer, ErrorCode::UnauthorizedUser) {
        Some(e) => Some(e),
        None => if recipient.treasury != t.key {
            Some(ErrorCode::RecipientNotWhitelisted)
        } else if !recipient.is_active {
            Some(ErrorCode::RecipientNotActive)
        } else if amount == 0 {
            Some(ErrorCode::InvalidWithdrawAmount)
        } else if schedule_time <= now {
            Some(ErrorCode::InvalidScheduleTime)
        } else if recurring && recurrence_interval == 0 {
            Some(ErrorCode::InvalidRecurrenceInterval)
        } else if t.next_payout_index == u64::MAX {
            Some(ErrorCode::ArithmeticOverflow)
        } else {
            None
        },
    }
}

/// Creates an active payout schedule to a whitelisted, active recipient,
/// numbered with the treasury's next payout sequence number. `token_mint`
/// names the asset paid; `None` is the native currency.
pub fn schedule_payout(
    t: &mut Treasury,
    user: &TreasuryUser,
    caller: Address,
    recipient: &WhitelistedRecipient,
    amount: u64,
    schedule_time: i64,
    recurring: bool,
    recurrence_interval: u64,
    token_mint: Option<Address>,
    now: i64,
    trail: &mut AuditTrail,
) -> (r: Result<PayoutSchedule, ErrorCode>)
    ensures
        match r {
            Ok(s) => {
                &&& schedule_error(
                    *old(t),
                    *user,
                    caller,
                    *recipient,
                    amount,
                    schedule_time,
                    recurring,
                    recurrence_interval,
                    now,
                ) is None
                &&& s == PayoutSchedule {
                    recipient: recipient.recipient,
                    amount,
                    schedule_time,
                    recurring,
                    recurrence_interval,
                    last_executed: 0,
                    is_active: true,
                    created_by: caller,
                    treasury: old(t).key,
                    index: old(t).next_payout_index,
                    token_mint,
                }
                &&& *final(t) == (Treasury {
                    next_payout_index: (old(t).next_payout_index + 1) as u64,
                    ..*old(t)
                })
                &&& old(t).wf() ==> final(t).wf()
                &&& final(trail)@ == old(trail)@.push(
                    audit_entry(
                        AuditAction::SchedulePayout,
                        old(t).key,
                        caller,
                        Some(recipient.recipient),
                        amount,
                        now,
                        token_mint,
                    ),
                )
            },
            Err(e) => {
                &&& schedule_error(
                    *old(t),
                    *user,
                    caller,
                    *recipient,
                    amount,
                    schedule_time,
                    recurring,
                    recurrence_interval,
                    now,
                ) == Some(e)
                &&& *final(t) == *old(t)
                &&& final(trail)@ == old(trail)@
            },
        },
{
    authorize(t, user, caller, Role::Treasurer, ErrorCode::UnauthorizedUser)?;
    if !(recipient.treasury == t.key) {
        return Err(ErrorCode::RecipientNotWhitelisted);
    }
    if !recipient.is_active {
        return Err(ErrorCode::RecipientNotActive);
    }
    if amount == 0 {
        return Err(ErrorCode::InvalidWithdrawAmount);
    }
    if schedule_time <= now {
        return Err(ErrorCode::InvalidScheduleTime);
    }
    if recurring && recurrence_interval == 0 {
        return Err(ErrorCode::InvalidRecurrenceInterval);
    }
    let index = t.get_next_payout_index()?;
    trail.record(
        AuditLog {
            action: AuditAction::SchedulePayout,
            treasury: t.key,
            initiator: caller,
            target: Some(recipient.recipient),
            amount,
            timestamp: now,
            token_mint,
        },
    );
    Ok(
        PayoutSchedule {
            recipient: recipient.recipient,
            amount,
            schedule_time,
            recurring,
            recurrence_interval,
            last_executed: 0,
            is_active: true,
            created_by: caller,
            treasury: t.key,
            index,
            token_mint,
        },
    )
}

// ---------------------------------------------------------------------------
// cancel_payout
// ---------------------------------------------------------------------------
pub open spec fn cancel_error(
    t: Treasury,
    s: PayoutSchedule,
    user: TreasuryUser,
    caller: Address,
) -> Option<ErrorCode> {
    match auth_error(t, user, caller, Role::Treasurer, ErrorCode::UnauthorizedUser) {
        Some(e) => Some(e),
        None => if s.treasury != t.key {
            Some(ErrorCode::UnauthorizedUser)
        } else if !s.is_active {
            Some(ErrorCode::PayoutNotActive)
        } else {
            None
        },
    }
}

/// Deactivates an active schedule for good; no balance changes.
pub fn cancel_payout(
    t: &Treasury,
    s: &mut PayoutSchedule,
    user: &TreasuryUser,
    caller: Address,
    now: i64,
    trail: &mut AuditTrail,
) -> (r: Result<(), ErrorCode>)
    ensures
        match r {
            Ok(()) => {
                &&& cancel_error(*t, *old(s), *user, caller) is None
                &&& *final(s) == (PayoutSchedule { is_active: false, ..*old(s) })
                &&& final(trail)@ == old(trail)@.push(
                    audit_entry(
                        AuditAction::CancelPayout,
                        t.key,
                        caller,
                        Some(old(s).recipient),
                        old(s).amount,
                        now,
                        old(s).token_mint,
                    ),
                )
            },
            Err(e) => {
                &&& cancel_error(*t, *old(s), *user, caller) == Some(e)
                &&& *final(s) == *old(s)
                &&& final(trail)@ == old(trail)@
            },
        },
{
    authorize(t, user, caller, Role::Treasurer, ErrorCode::UnauthorizedUser)?;
    if !(s.treasury == t.key) {
        return Err(ErrorCode::UnauthorizedUser);
    }
    if !s.is_active {
        return Err(ErrorCode::PayoutNotActive);
    }
    s.is_active = false;
    trail.record(
        AuditLog {
            action: AuditAction::CancelPayout,
            treasury: t.key,
            initiator: caller,
            target: Some(s.recipient),
            amount: s.amount,
            timestamp: now,
            token_mint: s.token_mint,
        },
    );
    Ok(())
}

// ---------------------------------------------------------------------------
// Checks shared by both kinds of payout execution
// ---------------------------------------------------------------------------
/// Why schedule `s` may not be executed at `now`, before any balance is
/// looked at, if it may not.
pub open spec fn payout_error(
    t: Treasury,
    s: PayoutSchedule,
    user: TreasuryUser,
    caller: Address,
    recipient: WhitelistedRecipient,
    timestamp: i64,
    now: i64,
) -> Option<ErrorCode> {
    match auth_error(t, user, caller, Role::Treasurer, ErrorCode::UnauthorizedUser) {
        Some(e) => Some(e),
        None => if s.treasury != t.key {
            Some(ErrorCode::UnauthorizedUser)
        } else if t.is_paused {
            Some(ErrorCode::TreasuryPaused)
        } else if !s.recurring && s.last_executed != 0 {
            Some(ErrorCode::PayoutAlreadyExecuted)
        } else if !s.is_active {
            Some(ErrorCode::PayoutNotActive)
        } else if recipient.treasury != t.key || recipient.recipient != s.recipient {
            Some(ErrorCode::RecipientNotWhitelisted)
        } else if !recipient.is_active {
            Some(ErrorCode::RecipientNotActive)
        } else if timestamp > now {
            Some(ErrorCode::InvalidTimestamp)
        } else if !s.due_at(now) {
            Some(ErrorCode::PayoutNotDue)
        } else {
            None
        },
    }
}

fn check_payout(
    t: &Treasury,
    s: &PayoutSchedule,
    user: &TreasuryUser,
    caller: Address,
    recipient: &WhitelistedRecipient,
    timestamp: i64,
    now: i64,
) -> (r: Result<(), ErrorCode>)
    ensures
        match r {
            Ok(()) => payout_error(*t, *s, *user, caller, *recipient, timestamp, now) is None,
            Err(e) => payout_error(*t, *s, *user, caller, *recipient, timestamp, now) == Some(e),
        },
{
    authorize(t, user, caller, Role::Treasurer, ErrorCode::UnauthorizedUser)?;
    if !(s.treasury == t.key) {
        return Err(ErrorCode::UnauthorizedUser);
    }
    if t.is_paused {
        return Err(ErrorCode::TreasuryPaused);
    }
    if !s.recurring && s.last_executed != 0 {
        return Err(ErrorCode::PayoutAlreadyExecuted);
    }
    if !s.is_active {
        return Err(ErrorCode::PayoutNotActive);
    }
    if !(recipient.treasury == t.key) || !(recipient.recipient == s.recipient) {
        return Err(ErrorCode::RecipientNotWhitelisted);
    }
    if !recipient.is_active {
        return Err(ErrorCode::RecipientNotActive);
    }
    if timestamp > now {
        return Err(ErrorCode::InvalidTimestamp);
    }
    if !s.is_due(now) {
        return Err(ErrorCode::PayoutNotDue);
    }
    Ok(())
}

/// The schedule after an execution at `now`: a one-time payout is
/// deactivated, a recurring one stays active.
pub open spec fn after_execution(s: PayoutSchedule, now: i64) -> PayoutSchedule {
    PayoutSchedule { last_executed: now, is_active: s.recurring, ..s }
}

fn mark_executed(s: &mut PayoutSchedule, now: i64)
    requires
        old(s).is_active,
    ensures
        *final(s) == after_execution(*old(s), now),
{
    s.last_executed = now;
    if !s.recurring {
        s.is_active = false;
    }
}

// ---------------------------------------------------------------------------
// execute_payout
// ---------------------------------------------------------------------------
pub open spec fn execute_error(
    t: Treasury,
    s: PayoutSchedule,
    user: TreasuryUser,
    caller: Address,
    recipient: WhitelistedRecipient,
    gate_account: Seq<u8>,
    timestamp: i64,
    now: i64,
) -> Option<ErrorCode> {
    match payout_error(t, s, user, caller, recipient, timestamp, now) {
        Some(e) => Some(e),
        None => if s.token_mint is Some {
            Some(ErrorCode::InvalidTokenMint)
        } else if t.gate_token_mint matches Some(g) && !gate_passes(gate_account, s.recipient, g) {
            Some(ErrorCode::TokenGateCheckFailed)
        } else if t.total_funds < s.amount {
            Some(ErrorCode::InsufficientFunds)
        } else {
            match native_spend(t, s.amount, now) {
                Err(e) => Some(e),
                Ok(_) => None,
            }
        },
    }
}

/// Executes a due native-currency payout at `now`. Where the treasury has a
/// gating asset, `gate_account` must be the recipient's token account of that
/// asset, holding a positive amount.
pub fn execute_payout(
    t: &mut Treasury,
    s: &mut PayoutSchedule,
    user: &TreasuryUser,
    caller: Address,
    recipient: &WhitelistedRecipient,
    gate_account: &[u8],
    timestamp: i64,
    now: i64,
    trail: &mut AuditTrail,
) -> (r: Result<(), ErrorCode>)
    ensures
        match r {
            Ok(()) => {
                let p = native_spend(*old(t), old(s).amount, now)->Ok_0;
                &&& execute_error(
                    *old(t),
                    *old(s),
                    *user,
                    caller,
                    *recipient,
                    gate_account@,
                    timestamp,
                    now,
                ) is None
                &&& *final(t) == after_native_spend(*old(t), old(s).amount, p)
                &&& old(t).wf() ==> final(t).wf()
                &&& final(t).epoch_spending <= final(t).spending_limit
                &&& *final(s) == after_execution(*old(s), now)
                &&& final(trail)@ == (old(trail)@ + reset_records(
                    *old(t),
                    caller,
                    p,
                    now,
                    None,
                )).push(
                    audit_entry(
                        AuditAction::ExecutePayout,
                        old(t).key,
                        caller,
                        Some(old(s).recipient),
                        old(s).amount,
                        now,
                        None,
                    ),
                )
            },
            Err(e) => {
                &&& execute_error(
                    *old(t),
                    *old(s),
                    *user,
                    caller,
                    *recipient,
                    gate_account@,
                    timestamp,
                    now,
                ) == Some(e)
                &&& *final(t) == *old(t)
                &&& *final(s) == *old(s)
                &&& final(trail)@ == old(trail)@
            },
        },
{
    check_payout(t, s, user, caller, recipient, timestamp, now)?;
    if s.token_mint.is_some() {
        return Err(ErrorCode::InvalidTokenMint);
    }
    if let Some(g) = t.gate_token_mint {
        if !holds_gate_asset(gate_account, s.recipient, g) {
            return Err(ErrorCode::TokenGateCheckFailed);
        }
    }
    let amount = s.amount;
    if t.total_funds < amount {
        return Err(ErrorCode::InsufficientFunds);
    }
    let p = plan_spend(
        t.last_epoch_start,
        t.epoch_duration,
        t.spending_limit,
        t.epoch_id,
        t.epoch_spending,
        true,
        amount,
        now,
    )?;
    record_reset(trail, t, caller, p, now, None);
    t.total_funds = t.total_funds - amount;
    t.last_epoch_start = p.window_start;
    t.epoch_spending = p.new_spent;
    t.epoch_id = p.window_id;
    mark_executed(s, now);
    trail.record(
        AuditLog {
            action: AuditAction::ExecutePayout,
            treasury: t.key,
            initiator: caller,
            target: Some(s.recipient),
            amount,
            timestamp: now,
            token_mint: None,
        },
    );
    Ok(())
}

// ---------------------------------------------------------------------------
// Epoch policy applied to an asset balance
// ---------------------------------------------------------------------------
/// The epoch policy on the counter of asset balance `b`. The counter counts
/// only if it was kept in the treasury's current window.
pub open spec fn asset_spend(t: Treasury, b: TokenBalance, amount: u64, now: i64) -> Result<
    SpendPlan,
    ErrorCode,
> {
    spend_outcome(
        t.last_epoch_start,
        t.epoch_duration,
        t.spending_limit,
        t.epoch_id,
        b.epoch_spending,
        b.epoch_id == t.epoch_id,
        amount,
        now,
    )
}

/// The treasury after an asset spend under `p`: a fresh window also clears
/// the native counter, which belonged to the window that ended.
pub open spec fn after_asset_spend_treasury(t: Treasury, p: SpendPlan) -> Treasury {
    if p.rolled {
        Treasury {
            last_epoch_start: p.window_start,
            epoch_spending: 0,
            epoch_id: p.window_id,
            ..t
        }
    } else {
        t
    }
}

pub open spec fn after_asset_spend_balance(b: TokenBalance, amount: u64, p: SpendPlan) -> TokenBalance {
    TokenBalance {
        balance: (b.balance - amount) as u64,
        epoch_spending: p.new_spent,
        epoch_id: p.window_id,
        ..b
    }
}

/// The window-reset records of an asset spend under `p`: when the window
/// ends, one for the asset's counter and one for the native counter, each
/// with the amount spent in the ended window.
pub open spec fn asset_reset_records(
    t: Treasury,
    initiator: Address,
    p: SpendPlan,
    now: i64,
    mint: Address,
) -> Seq<AuditLog> {
    if p.rolled {
        seq![
            audit_entry(
                AuditAction::SpendingLimitReset,
                t.key,
                initiator,
                None,
                p.previous_spent,
                now,
                Some(mint),
            ),
            audit_entry(
                AuditAction::SpendingLimitReset,
                t.key,
                initiator,
                None,
                t.epoch_spending,
                now,
                None,
            ),
        ]
    } else {
        Seq::empty()
    }
}

pub(crate) fn spend_asset(
    t: &mut Treasury,
    b: &mut TokenBalance,
    amount: u64,
    caller: Address,
    now: i64,
    trail: &mut AuditTrail,
) -> (r: Result<(), ErrorCode>)
    requires
        old(b).balance >= amount,
    ensures
        match r {
            Ok(()) => {
                let p = asset_spend(*old(t), *old(b), amount, now)->Ok_0;
                &&& asset_spend(*old(t), *old(b), amount, now) is Ok
                &&& *final(t) == after_asset_spend_treasury(*old(t), p)
                &&& old(t).wf() ==> final(t).wf()
                &&& *final(b) == after_asset_spend_balance(*old(b), amount, p)
                &&& final(b).epoch_spending <= final(t).spending_limit
                &&& final(b).epoch_id == final(t).epoch_id
                &&& final(trail)@ == old(trail)@ + asset_reset_records(
                    *old(t),
                    caller,
                    p,
                    now,
                    old(b).token_mint,
                )
            },
            Err(e) => {
                &&& asset_spend(*old(t), *old(b), amount, now) == Err::<SpendPlan, ErrorCode>(e)
                &&& *final(t) == *old(t)
                &&& *final(b) == *old(b)
                &&& final(trail)@ == old(trail)@
            },
        },
{
    let current = b.epoch_id == t.epoch_id;
    let p = plan_spend(
        t.last_epoch_start,
        t.epoch_duration,
        t.spending_limit,
        t.epoch_id,
        b.epoch_spending,
        current,
        amount,
        now,
    )?;
    if p.rolled {
        trail.record(
            AuditLog {
                action: AuditAction::SpendingLimitReset,
                treasury: t.key,
                initiator: caller,
                target: None,
                amount: p.previous_spent,
                timestamp: now,
                token_mint: Some(b.token_mint),
            },
        );
        trail.record(
            AuditLog {
                action: AuditAction::SpendingLimitReset,
                treasury: t.key,
                initiator: caller,
                target: None,
                amount: t.epoch_spending,
                timestamp: now,
                token_mint: None,
            },
        );
        t.last_epoch_start = p.window_start;
        t.epoch_spending = 0;
        t.epoch_id = p.window_id;
    }
    proof {
        assert(trail@ =~= old(trail)@ + asset_reset_records(
            *old(t),
            caller,
            p,
            now,
            old(b).token_mint,
        ));
    }
    b.balance = b.balance - amount;
    b.epoch_spending = p.new_spent;
    b.epoch_id = p.window_id;
    Ok(())
}

// ---------------------------------------------------------------------------
// execute_token_payout
// ---------------------------------------------------------------------------
pub open spec fn execute_token_error(
    t: Treasury,
    s: PayoutSchedule,
    b: TokenBalance,
    user: TreasuryUser,
    caller: Address,
    recipient: WhitelistedRecipient,
    treasury_account: Seq<u8>,
    recipient_account: Seq<u8>,
    gate_account: Seq<u8>,
    timestamp: i64,
    now: i64,
) -> Option<ErrorCode> {
    match payout_error(t, s, user, caller, recipient, timestamp, now) {
        Some(e) => Some(e),
        None => match s.token_mint {
            None => Some(ErrorCode::InvalidTokenMint),
            Some(m) => if b.treasury != t.key || b.token_mint != m {
                Some(ErrorCode::InvalidTokenMint)
            } else if b.balance < s.amount {
                Some(ErrorCode::InsufficientTokenBalance)
            } else if token_account_error(treasury_account, t.key, m) is Some {
                token_account_error(treasury_account, t.key, m)
            } else if token_account_error(recipient_account, s.recipient, m) is Some {
                token_account_error(recipient_account, s.recipient, m)
            } else if t.gate_token_mint matches Some(g) && !gate_passes(
                gate_account,
                s.recipient,
                g,
            ) {
                Some(ErrorCode::TokenGateCheckFailed)
            } else {
                match asset_spend(t, b, s.amount, now) {
                    Err(e) => Some(e),
                    Ok(_) => None,
                }
            },
        },
    }
}

/// Executes a due asset payout at `now`, debiting the asset balance `b`.
/// `treasury_account` must be the treasury's token account of the asset and
/// `recipient_account` the recipient's; where the treasury has a gating
/// asset, `gate_account` must be the recipient's token account of that asset,
/// holding a positive amount.
pub fn execute_token_payout(
    t: &mut Treasury,
    s: &mut PayoutSchedule,
    b: &mut TokenBalance,
    user: &TreasuryUser,
    caller: Address,
    recipient: &WhitelistedRecipient,
    treasury_account: &[u8],
    recipient_account: &[u8],
    gate_account: &[u8],
    timestamp: i64,
    now: i64,
    trail: &mut AuditTrail,
) -> (r: Result<(), ErrorCode>)
    ensures
        match r {
            Ok(()) => {
                let p = asset_spend(*old(t), *old(b), old(s).amount, now)->Ok_0;
                &&& execute_token_error(
                    *old(t),
                    *old(s),
                    *old(b),
                    *user,
                    caller,
                    *recipient,
                    treasury_account@,
                    recipient_account@,
                    gate_account@,
                    timestamp,
                    now,
                ) is None
                &&& *final(t) == after_asset_spend_treasury(*old(t), p)
                &&& old(t).wf() ==> final(t).wf()
                &&& *final(b) == after_asset_spend_balance(*old(b), old(s).amount, p)
                &&& final(b).epoch_spending <= final(t).spending_limit
                &&& *final(s) == after_execution(*old(s), now)
                &&& final(b).epoch_id == final(t).epoch_id
                &&& final(trail)@ == (old(trail)@ + asset_reset_records(
                    *old(t),
                    caller,
                    p,
                    now,
                    old(b).token_mint,
                )).push(
                    audit_entry(
                        AuditAction::TokenPayout,
                        old(t).key,
                        caller,
                        Some(old(s).recipient),
                        old(s).amount,
                        now,
                        old(s).token_mint,
                    ),
                )
            },
            Err(e) => {
                &&& execute_token_error(
                    *old(t),
                    *old(s),
                    *old(b),
                    *user,
                    caller,
                    *recipient,
                    treasury_account@,
                    recipient_account@,
                    gate_account@,
                    timestamp,
                    now,
                ) == Some(e)
                &&& *final(t) == *old(t)
                &&& *final(s) == *old(s)
                &&& *final(b) == *old(b)
                &&& final(trail)@ == old(trail)@
            },
        },
{
    check_payout(t, s, user, caller, recipient, timestamp, now)?;
    let m = match s.token_mint {
        Some(m) => m,
        None => {
            return Err(ErrorCode::InvalidTokenMint);
        },
    };
    if !(b.treasury == t.key) || !(b.token_mint == m) {
        return Err(ErrorCode::InvalidTokenMint);
    }
    let amount = s.amount;
    if b.balance < amount {
        return Err(ErrorCode::InsufficientTokenBalance);
    }
    check_token_account(treasury_account, t.key, m)?;
    check_token_account(recipient_account, s.recipient, m)?;
    if let Some(g) = t.gate_token_mint {
        if !holds_gate_asset(gate_account, s.recipient, g) {
            return Err(ErrorCode::TokenGateCheckFailed);
        }
    }
    spend_asset(t, b, amount, caller, now, trail)?;
    mark_executed(s, now);
    trail.record(
        AuditLog {
            action: AuditAction::TokenPayout,
            treasury: t.key,
            initiator: caller,
            target: Some(s.recipient),
            amount,
            timestamp: now,
            token_mint: Some(m),
        },
    );
    Ok(())
}

} // verus!
