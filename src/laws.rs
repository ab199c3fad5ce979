use vstd::prelude::*;

use crate::address::Address;
use crate::epoch::spend_outcome;
use crate::error::{kind_of, ErrorCode, ErrorKind};
use crate::instructions::{
    after_config, after_native_spend, auth_error, config_error, native_spend, withdraw_error,
};
use crate::payouts::{
    after_asset_spend_balance, after_asset_spend_treasury, after_execution, asset_spend,
    cancel_error, execute_error, execute_token_error, payout_error,
};
use crate::state::{PayoutSchedule, Role, TokenBalance, Treasury, TreasuryUser, WhitelistedRecipient};
use crate::tokens::withdraw_token_error;

verus! {

/// A spend that the epoch policy accepts leaves its counter within the
/// spending limit, whatever the counter held before.
pub proof fn law_accepted_spend_within_limit(
    start: i64,
    duration: u64,
    limit: u64,
    window_id: u64,
    counter: u64,
    counter_current: bool,
    amount: u64,
    now: i64,
)
    requires
        spend_outcome(start, duration, limit, window_id, counter, counter_current, amount, now) is Ok,
    ensures
        spend_outcome(start, duration, limit, window_id, counter, counter_current, amount, now)->Ok_0.new_spent
            <= limit,
{
}

/// A native debit (withdrawal or payout) keeps a well-formed treasury
/// well-formed, and keeps every tracked asset counter within the limit.
pub proof fn law_native_spend_keeps_limit(t: Treasury, other: TokenBalance, amount: u64, now: i64)
    requires
        t.wf(),
        other.within_limit(t),
        native_spend(t, amount, now) is Ok,
    ensures
        after_native_spend(t, amount, native_spend(t, amount, now)->Ok_0).wf(),
        other.within_limit(after_native_spend(t, amount, native_spend(t, amount, now)->Ok_0)),
{
}

/// An asset debit keeps a well-formed treasury well-formed, leaves the
/// debited asset's counter within the limit and counted in the current
/// window, and keeps every other tracked asset counter within the limit.
pub proof fn law_asset_spend_keeps_limit(
    t: Treasury,
    b: TokenBalance,
    other: TokenBalance,
    amount: u64,
    now: i64,
)
    requires
        t.wf(),
        other.within_limit(t),
        asset_spend(t, b, amount, now) is Ok,
    ensures
        ({
            let p = asset_spend(t, b, amount, now)->Ok_0;
            let t2 = after_asset_spend_treasury(t, p);
            let b2 = after_asset_spend_balance(b, amount, p);
            &&& t2.wf()
            &&& b2.within_limit(t2)
            &&& b2.epoch_id == t2.epoch_id
            &&& other.within_limit(t2)
        }),
{
}

/// An accepted configuration update keeps a well-formed treasury
/// well-formed and every tracked asset counter within the (possibly lowered)
/// limit: a changed setting opens a fresh window, in which no asset has spent
/// yet.
pub proof fn law_config_keeps_limit(
    t: Treasury,
    other: TokenBalance,
    user: TreasuryUser,
    caller: Address,
    epoch_duration: Option<u64>,
    spending_limit: Option<u64>,
    now: i64,
)
    requires
        t.wf(),
        other.within_limit(t),
        config_error(t, user, caller, epoch_duration, spending_limit) is None,
    ensures
        after_config(t, epoch_duration, spending_limit, now).wf(),
        other.within_limit(after_config(t, epoch_duration, spending_limit, now)),
        (epoch_duration is Some || spending_limit is Some) ==> other.epoch_id < after_config(
            t,
            epoch_duration,
            spending_limit,
            now,
        ).epoch_id,
{
}

/// While the treasury is paused, every debit by an authorized caller fails
/// with `TreasuryPaused`, whatever the amount: native and asset withdrawals,
/// and payouts of the treasury's schedules.
pub proof fn law_pause_blocks_debits(
    t: Treasury,
    user: TreasuryUser,
    caller: Address,
    amount: u64,
    timestamp: i64,
    now: i64,
    b: TokenBalance,
    recipient: Address,
    mint: Address,
    treasury_account: Seq<u8>,
    recipient_account: Seq<u8>,
    s: PayoutSchedule,
    whitelisted: WhitelistedRecipient,
    gate_account: Seq<u8>,
)
    requires
        t.is_paused,
    ensures
        auth_error(t, user, caller, Role::Treasurer, ErrorCode::UnauthorizedWithdrawal) is None
            ==> withdraw_error(t, user, caller, amount, timestamp, now) == Some(
            ErrorCode::TreasuryPaused,
        ) && withdraw_token_error(
            t,
            b,
            user,
            caller,
            recipient,
            mint,
            treasury_account,
            recipient_account,
            amount,
            timestamp,
            now,
        ) == Some(ErrorCode::TreasuryPaused),
        auth_error(t, user, caller, Role::Treasurer, ErrorCode::UnauthorizedUser) is None
            && s.treasury == t.key ==> execute_error(
            t,
            s,
            user,
            caller,
            whitelisted,
            gate_account,
            timestamp,
            now,
        ) == Some(ErrorCode::TreasuryPaused) && execute_token_error(
            t,
            s,
            b,
            user,
            caller,
            whitelisted,
            treasury_account,
            recipient_account,
            gate_account,
            timestamp,
            now,
        ) == Some(ErrorCode::TreasuryPaused),
{
}

/// A native withdrawal beyond the balance fails with `InsufficientFunds`
/// before the spending limit is looked at; past the authorization, pause and
/// input checks, it fails exactly when the balance or the epoch policy does.
pub proof fn law_withdraw_balance_before_limit(
    t: Treasury,
    user: TreasuryUser,
    caller: Address,
    amount: u64,
    timestamp: i64,
    now: i64,
)
    requires
        auth_error(t, user, caller, Role::Treasurer, ErrorCode::UnauthorizedWithdrawal) is None,
        !t.is_paused,
        amount > 0,
        timestamp <= now,
    ensures
        t.total_funds < amount ==> withdraw_error(t, user, caller, amount, timestamp, now) == Some(
            ErrorCode::InsufficientFunds,
        ),
        t.total_funds >= amount ==> withdraw_error(t, user, caller, amount, timestamp, now)
            == match native_spend(t, amount, now) {
            Err(e) => Some(e),
            Ok(_) => None,
        },
{
}

/// An accepted native withdrawal is covered by the balance: the balance
/// loses exactly the amount and stays non-negative.
pub proof fn law_withdraw_covered(
    t: Treasury,
    user: TreasuryUser,
    caller: Address,
    amount: u64,
    timestamp: i64,
    now: i64,
)
    requires
        withdraw_error(t, user, caller, amount, timestamp, now) is None,
    ensures
        t.total_funds >= amount,
        after_native_spend(t, amount, native_spend(t, amount, now)->Ok_0).total_funds
            == t.total_funds - amount,
{
}

/// An accepted native payout is covered by the balance.
pub proof fn law_payout_covered(
    t: Treasury,
    s: PayoutSchedule,
    user: TreasuryUser,
    caller: Address,
    recipient: WhitelistedRecipient,
    gate_account: Seq<u8>,
    timestamp: i64,
    now: i64,
)
    requires
        execute_error(t, s, user, caller, recipient, gate_account, timestamp, now) is None,
    ensures
        t.total_funds >= s.amount,
        after_native_spend(t, s.amount, native_spend(t, s.amount, now)->Ok_0).total_funds
            == t.total_funds - s.amount,
{
}

/// An accepted asset withdrawal is covered by the asset balance.
pub proof fn law_token_withdraw_covered(
    t: Treasury,
    b: TokenBalance,
    user: TreasuryUser,
    caller: Address,
    recipient: Address,
    mint: Address,
    treasury_account: Seq<u8>,
    recipient_account: Seq<u8>,
    amount: u64,
    timestamp: i64,
    now: i64,
)
    requires
        withdraw_token_error(
            t,
            b,
            user,
            caller,
            recipient,
            mint,
            treasury_account,
            recipient_account,
            amount,
            timestamp,
            now,
        ) is None,
    ensures
        b.balance >= amount,
        after_asset_spend_balance(b, amount, asset_spend(t, b, amount, now)->Ok_0).balance
            == b.balance - amount,
{
}

/// An accepted asset payout is covered by the asset balance.
pub proof fn law_token_payout_covered(
    t: Treasury,
    s: PayoutSchedule,
    b: TokenBalance,
    user: TreasuryUser,
    caller: Address,
    recipient: WhitelistedRecipient,
    treasury_account: Seq<u8>,
    recipient_account: Seq<u8>,
    gate_account: Seq<u8>,
    timestamp: i64,
    now: i64,
)
    requires
        execute_token_error(
            t,
            s,
            b,
            user,
            caller,
            recipient,
            treasury_account,
            recipient_account,
            gate_account,
            timestamp,
            now,
        ) is None,
    ensures
        b.balance >= s.amount,
        after_asset_spend_balance(b, s.amount, asset_spend(t, b, s.amount, now)->Ok_0).balance
            == b.balance - s.amount,
{
}

/// Once a one-time payout has been executed, any further execution by an
/// authorized caller of an unpaused treasury fails with
/// `PayoutAlreadyExecuted` or `PayoutNotActive`, natively or as an asset.
pub proof fn law_one_time_payout_runs_once(
    t: Treasury,
    s: PayoutSchedule,
    user: TreasuryUser,
    caller: Address,
    recipient: WhitelistedRecipient,
    timestamp: i64,
    now: i64,
    t2: Treasury,
    b2: TokenBalance,
    user2: TreasuryUser,
    caller2: Address,
    recipient2: WhitelistedRecipient,
    gate_account2: Seq<u8>,
    treasury_account2: Seq<u8>,
    recipient_account2: Seq<u8>,
    timestamp2: i64,
    now2: i64,
)
    requires
        !s.recurring,
        payout_error(t, s, user, caller, recipient, timestamp, now) is None,
        auth_error(t2, user2, caller2, Role::Treasurer, ErrorCode::UnauthorizedUser) is None,
        s.treasury == t2.key,
        !t2.is_paused,
    ensures
        ({
            let s2 = after_execution(s, now);
            let e = payout_error(t2, s2, user2, caller2, recipient2, timestamp2, now2);
            &&& e == Some(ErrorCode::PayoutAlreadyExecuted) || e == Some(ErrorCode::PayoutNotActive)
            &&& execute_error(
                t2,
                s2,
                user2,
                caller2,
                recipient2,
                gate_account2,
                timestamp2,
                now2,
            ) == e
            &&& execute_token_error(
                t2,
                s2,
                b2,
                user2,
                caller2,
                recipient2,
                treasury_account2,
                recipient_account2,
                gate_account2,
                timestamp2,
                now2,
            ) == e
        }),
{
}

/// A recurring payout executed at `now` is not due again before
/// `recurrence_interval` seconds have passed, so no execution can succeed
/// then; once every earlier check passes, it fails with `PayoutNotDue`.
/// Time 0 is excluded: a last execution of 0 reads as "never".
pub proof fn law_recurring_waits_interval(
    s: PayoutSchedule,
    now: i64,
    t2: Treasury,
    user2: TreasuryUser,
    caller2: Address,
    recipient2: WhitelistedRecipient,
    timestamp2: i64,
    later: i64,
)
    requires
        s.recurring,
        now != 0,
        (later as int) < now as int + s.recurrence_interval as int,
    ensures
        !after_execution(s, now).due_at(later),
        payout_error(t2, after_execution(s, now), user2, caller2, recipient2, timestamp2, later)
            is Some,
        ({
            &&& auth_error(t2, user2, caller2, Role::Treasurer, ErrorCode::UnauthorizedUser) is None
            &&& s.treasury == t2.key
            &&& !t2.is_paused
            &&& s.is_active
            &&& recipient2.treasury == t2.key
            &&& recipient2.recipient == s.recipient
            &&& recipient2.is_active
            &&& timestamp2 <= later
        }) ==> payout_error(
            t2,
            after_execution(s, now),
            user2,
            caller2,
            recipient2,
            timestamp2,
            later,
        ) == Some(ErrorCode::PayoutNotDue),
{
}

/// A schedule that has never executed is not due before its schedule time.
pub proof fn law_not_due_before_schedule(s: PayoutSchedule, now: i64)
    requires
        s.last_executed == 0,
        s.schedule_time > now,
    ensures
        !s.due_at(now),
{
}

/// Cancellation is terminal: after a successful cancel, executing the
/// schedule (natively or as an asset) fails with a state error for any
/// caller authorized in its treasury, and cancelling again fails too.
pub proof fn law_cancel_is_terminal(
    t: Treasury,
    s: PayoutSchedule,
    user: TreasuryUser,
    caller: Address,
    t2: Treasury,
    b2: TokenBalance,
    user2: TreasuryUser,
    caller2: Address,
    recipient2: WhitelistedRecipient,
    gate_account2: Seq<u8>,
    treasury_account2: Seq<u8>,
    recipient_account2: Seq<u8>,
    timestamp2: i64,
    now2: i64,
)
    requires
        cancel_error(t, s, user, caller) is None,
        auth_error(t2, user2, caller2, Role::Treasurer, ErrorCode::UnauthorizedUser) is None,
        s.treasury == t2.key,
    ensures
        ({
            let c = PayoutSchedule { is_active: false, ..s };
            let e = payout_error(t2, c, user2, caller2, recipient2, timestamp2, now2);
            &&& e matches Some(k) && kind_of(k) == ErrorKind::State
            &&& execute_error(
                t2,
                c,
                user2,
                caller2,
                recipient2,
                gate_account2,
                timestamp2,
                now2,
            ) == e
            &&& execute_token_error(
                t2,
                c,
                b2,
                user2,
                caller2,
                recipient2,
                treasury_account2,
                recipient_account2,
                gate_account2,
                timestamp2,
                now2,
            ) == e
            &&& cancel_error(t2, c, user2, caller2) == Some(ErrorCode::PayoutNotActive)
        }),
{
}

} // verus!
