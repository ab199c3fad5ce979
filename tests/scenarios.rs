use treasury_vault::address::Address;
use treasury_vault::audit::{AuditAction, AuditTrail};
use treasury_vault::error::{ErrorCode, ErrorKind};
use treasury_vault::instructions::{
    add_treasury_user, add_whitelisted_recipient, deposit, initialize_treasury, pause_treasury,
    set_token_gate, unpause_treasury, withdraw,
};
use treasury_vault::payouts::{cancel_payout, execute_payout, schedule_payout};
use treasury_vault::state::{PayoutSchedule, Treasury, TreasuryUser, WhitelistedRecipient};

const T: i64 = 1_000_000;

fn addr(n: u8) -> Address {
    let mut b = [0u8; 32];
    b[0] = n;
    b[31] = 7;
    Address::new(b)
}

/// Token account data: mint, owner, amount, initialized, no options set.
fn token_account(mint: Address, owner: Address, amount: u64) -> Vec<u8> {
    let mut d = vec![0u8; 165];
    d[0..32].copy_from_slice(&mint.to_bytes());
    d[32..64].copy_from_slice(&owner.to_bytes());
    d[64..72].copy_from_slice(&amount.to_le_bytes());
    d[108] = 1;
    d
}

struct Setup {
    t: Treasury,
    admin: TreasuryUser,
    trail: AuditTrail,
}

fn setup(duration: u64, limit: u64, now: i64) -> Setup {
    let mut trail = AuditTrail::new();
    let (t, admin) = initialize_treasury(addr(1), addr(2), duration, limit, now, &mut trail).unwrap();
    Setup { t, admin, trail }
}

fn whitelist(s: &mut Setup, who: Address, now: i64) -> WhitelistedRecipient {
    let admin = s.admin;
    add_whitelisted_recipient(&s.t, &admin, addr(2), who, "alice".to_string(), now, &mut s.trail)
        .unwrap()
}

fn schedule(
    s: &mut Setup,
    r: &WhitelistedRecipient,
    amount: u64,
    at: i64,
    recurring: bool,
    interval: u64,
    now: i64,
) -> PayoutSchedule {
    let admin = s.admin;
    schedule_payout(&mut s.t, &admin, addr(2), r, amount, at, recurring, interval, None, now, &mut s.trail)
        .unwrap()
}

fn execute(s: &mut Setup, p: &mut PayoutSchedule, r: &WhitelistedRecipient, gate: &[u8], now: i64) -> Result<(), ErrorCode> {
    let admin = s.admin;
    execute_payout(&mut s.t, p, &admin, addr(2), r, gate, now, now, &mut s.trail)
}

#[test]
fn scenario_deposit_withdraw_limits() {
    let mut s = setup(3600, 1000, T);
    assert_eq!(deposit(&mut s.t, addr(9), 500, T, T, &mut s.trail), Ok(()));
    let admin = s.admin;
    assert_eq!(withdraw(&mut s.t, &admin, addr(2), addr(5), 300, T, T, &mut s.trail), Ok(()));
    assert_eq!(s.t.epoch_spending, 300);
    assert_eq!(s.t.total_funds, 200);
    let r = withdraw(&mut s.t, &admin, addr(2), addr(5), 800, T, T, &mut s.trail);
    assert_eq!(r, Err(ErrorCode::InsufficientFunds));
    assert_eq!(r.unwrap_err().kind(), ErrorKind::Resource);
    assert_eq!(s.t.total_funds, 200);
    assert_eq!(s.t.epoch_spending, 300);
}

#[test]
fn scenario_one_time_payout() {
    let mut s = setup(3600, 1000, T);
    deposit(&mut s.t, addr(9), 500, T, T, &mut s.trail).unwrap();
    let r = whitelist(&mut s, addr(5), T);
    let mut p = schedule(&mut s, &r, 100, T + 10, false, 0, T);
    assert_eq!(execute(&mut s, &mut p, &r, &[], T + 5), Err(ErrorCode::PayoutNotDue));
    assert_eq!(execute(&mut s, &mut p, &r, &[], T + 10), Ok(()));
    assert_eq!(p.last_executed, T + 10);
    assert!(!p.is_active);
    assert_eq!(s.t.total_funds, 400);
    assert_eq!(execute(&mut s, &mut p, &r, &[], T + 20), Err(ErrorCode::PayoutAlreadyExecuted));
    assert_eq!(s.t.total_funds, 400);
}

#[test]
fn scenario_recurring_payout() {
    let mut s = setup(3600, 1000, T - 1);
    deposit(&mut s.t, addr(9), 500, T - 1, T - 1, &mut s.trail).unwrap();
    let r = whitelist(&mut s, addr(5), T - 1);
    let mut p = schedule(&mut s, &r, 50, T, true, 3600, T - 1);
    assert_eq!(execute(&mut s, &mut p, &r, &[], T), Ok(()));
    assert_eq!(p.last_executed, T);
    assert!(p.is_active);
    assert_eq!(execute(&mut s, &mut p, &r, &[], T + 1800), Err(ErrorCode::PayoutNotDue));
    assert_eq!(execute(&mut s, &mut p, &r, &[], T + 3601), Ok(()));
    assert_eq!(p.last_executed, T + 3601);
    assert_eq!(s.t.total_funds, 400);
}

#[test]
fn scenario_pause_blocks_withdraw() {
    let mut s = setup(3600, 1000, T);
    deposit(&mut s.t, addr(9), 500, T, T, &mut s.trail).unwrap();
    let admin = s.admin;
    assert_eq!(pause_treasury(&mut s.t, &admin, addr(2), T, &mut s.trail), Ok(()));
    let r = withdraw(&mut s.t, &admin, addr(2), addr(5), 100, T, T, &mut s.trail);
    assert_eq!(r, Err(ErrorCode::TreasuryPaused));
    assert_eq!(r.unwrap_err().kind(), ErrorKind::State);
    assert_eq!(
        withdraw(&mut s.t, &admin, addr(2), addr(5), 0, T, T, &mut s.trail),
        Err(ErrorCode::TreasuryPaused)
    );
    assert_eq!(unpause_treasury(&mut s.t, &admin, addr(2), T, &mut s.trail), Ok(()));
    assert_eq!(withdraw(&mut s.t, &admin, addr(2), addr(5), 100, T, T, &mut s.trail), Ok(()));
    assert_eq!(
        withdraw(&mut s.t, &admin, addr(2), addr(5), 1000, T, T, &mut s.trail),
        Err(ErrorCode::InsufficientFunds)
    );
}

#[test]
fn scenario_token_gate_blocks_payout() {
    let mut s = setup(3600, 1000, T);
    deposit(&mut s.t, addr(9), 500, T, T, &mut s.trail).unwrap();
    let r = whitelist(&mut s, addr(5), T);
    let mut p = schedule(&mut s, &r, 100, T + 10, false, 0, T);
    let admin = s.admin;
    let gate = addr(40);
    set_token_gate(&mut s.t, &admin, addr(2), Some(gate), T, &mut s.trail).unwrap();
    assert_eq!(s.t.gate_token_mint, Some(gate));
    let empty = token_account(gate, addr(5), 0);
    let res = execute(&mut s, &mut p, &r, &empty, T + 10);
    assert_eq!(res, Err(ErrorCode::TokenGateCheckFailed));
    assert_eq!(res.unwrap_err().kind(), ErrorKind::Gate);
    assert_eq!(execute(&mut s, &mut p, &r, &[], T + 10), Err(ErrorCode::TokenGateCheckFailed));
    let other_asset = token_account(addr(41), addr(5), 10);
    assert_eq!(execute(&mut s, &mut p, &r, &other_asset, T + 10), Err(ErrorCode::TokenGateCheckFailed));
    let held = token_account(gate, addr(5), 1);
    assert_eq!(execute(&mut s, &mut p, &r, &held, T + 10), Ok(()));
}

#[test]
fn cancel_then_execute_fails_with_state_error() {
    let mut s = setup(3600, 1000, T);
    deposit(&mut s.t, addr(9), 500, T, T, &mut s.trail).unwrap();
    let r = whitelist(&mut s, addr(5), T);
    let mut p = schedule(&mut s, &r, 100, T + 10, true, 60, T);
    let admin = s.admin;
    assert_eq!(cancel_payout(&s.t, &mut p, &admin, addr(2), T, &mut s.trail), Ok(()));
    assert!(!p.is_active);
    let res = execute(&mut s, &mut p, &r, &[], T + 100);
    assert_eq!(res, Err(ErrorCode::PayoutNotActive));
    assert_eq!(res.unwrap_err().kind(), ErrorKind::State);
    assert_eq!(
        cancel_payout(&s.t, &mut p, &admin, addr(2), T, &mut s.trail),
        Err(ErrorCode::PayoutNotActive)
    );
    assert_eq!(s.t.total_funds, 500);
}

#[test]
fn not_due_before_schedule_time() {
    let mut s = setup(3600, 1000, T);
    let r = whitelist(&mut s, addr(5), T);
    let p = schedule(&mut s, &r, 100, T + 10, false, 0, T);
    assert!(!p.is_due(T + 9));
    assert!(p.is_due(T + 10));
    let q = schedule(&mut s, &r, 100, T + 10, true, 5, T);
    assert!(!q.is_due(T));
    assert!(q.is_due(T + 11));
}

#[test]
fn epoch_limit_and_rollover() {
    let mut s = setup(3600, 1000, T);
    deposit(&mut s.t, addr(9), 5000, T, T, &mut s.trail).unwrap();
    let admin = s.admin;
    withdraw(&mut s.t, &admin, addr(2), addr(5), 700, T, T, &mut s.trail).unwrap();
    let r = withdraw(&mut s.t, &admin, addr(2), addr(5), 301, T + 10, T + 10, &mut s.trail);
    assert_eq!(r, Err(ErrorCode::SpendingLimitExceeded));
    assert_eq!(s.t.epoch_spending, 700);
    withdraw(&mut s.t, &admin, addr(2), addr(5), 300, T + 10, T + 10, &mut s.trail).unwrap();
    assert_eq!(s.t.epoch_spending, 1000);
    assert!(s.t.epoch_spending <= s.t.spending_limit);
    let before = s.trail.len();
    withdraw(&mut s.t, &admin, addr(2), addr(5), 400, T + 3600, T + 3600, &mut s.trail).unwrap();
    assert_eq!(s.t.last_epoch_start, T + 3600);
    assert_eq!(s.t.epoch_spending, 400);
    assert_eq!(s.trail.len(), before + 2);
    let reset = s.trail.get(before);
    assert_eq!(reset.action, AuditAction::SpendingLimitReset);
    assert_eq!(reset.amount, 1000);
    let w = s.trail.get(before + 1);
    assert_eq!(w.action, AuditAction::Withdraw);
    assert_eq!(w.amount, 400);
    assert_eq!(w.target, Some(addr(5)));
    assert_eq!(s.t.total_funds, 3600);
}

#[test]
fn rejected_operations_leave_no_trace() {
    let mut s = setup(3600, 1000, T);
    let before = s.trail.len();
    let t0 = s.t;
    assert_eq!(deposit(&mut s.t, addr(9), 0, T, T, &mut s.trail), Err(ErrorCode::InvalidDepositAmount));
    assert_eq!(deposit(&mut s.t, addr(9), 5, T + 1, T, &mut s.trail), Err(ErrorCode::InvalidTimestamp));
    s.t.total_funds = u64::MAX;
    assert_eq!(deposit(&mut s.t, addr(9), 1, T, T, &mut s.trail), Err(ErrorCode::ArithmeticOverflow));
    s.t = t0;
    assert_eq!(s.trail.len(), before);
    assert_eq!(s.t.total_funds, 0);
}

#[test]
fn initialize_validates_inputs() {
    let mut trail = AuditTrail::new();
    assert_eq!(
        initialize_treasury(addr(1), addr(2), 0, 10, T, &mut trail).unwrap_err(),
        ErrorCode::InvalidEpochDuration
    );
    assert_eq!(
        initialize_treasury(addr(1), addr(2), 10, 0, T, &mut trail).unwrap_err(),
        ErrorCode::InvalidSpendingLimit
    );
    assert_eq!(trail.len(), 0);
    let (t, u) = initialize_treasury(addr(1), addr(2), 10, 20, T, &mut trail).unwrap();
    assert_eq!(t.last_epoch_start, T);
    assert_eq!(t.epoch_spending, 0);
    assert!(!t.is_paused);
    assert!(u.is_admin());
    assert_eq!(trail.len(), 1);
    assert_eq!(trail.get(0).action, AuditAction::InitializeTreasury);
}

#[test]
fn roles_and_permissions() {
    let mut s = setup(3600, 1000, T);
    let admin = s.admin;
    let tr = add_treasury_user(&s.t, &admin, addr(2), addr(3), 1, T, &mut s.trail).unwrap();
    assert!(tr.is_treasurer());
    assert!(!tr.is_admin());
    assert_eq!(
        add_treasury_user(&s.t, &admin, addr(2), addr(3), 2, T, &mut s.trail).unwrap_err(),
        ErrorCode::InvalidRole
    );
    let e = add_treasury_user(&s.t, &tr, addr(3), addr(4), 1, T, &mut s.trail).unwrap_err();
    assert_eq!(e, ErrorCode::UnauthorizedUser);
    assert_eq!(e.kind(), ErrorKind::Authorization);
    // a record that is not the caller's own
    assert_eq!(
        add_treasury_user(&s.t, &admin, addr(3), addr(4), 1, T, &mut s.trail).unwrap_err(),
        ErrorCode::UnauthorizedUser
    );
    assert_eq!(pause_treasury(&mut s.t, &tr, addr(3), T, &mut s.trail), Err(ErrorCode::UnauthorizedPauseAction));
    assert_eq!(
        set_token_gate(&mut s.t, &tr, addr(3), None, T, &mut s.trail),
        Err(ErrorCode::UnauthorizedConfigUpdate)
    );
    deposit(&mut s.t, addr(9), 100, T, T, &mut s.trail).unwrap();
    assert_eq!(withdraw(&mut s.t, &tr, addr(3), addr(5), 10, T, T, &mut s.trail), Ok(()));
    let mut inactive = tr;
    inactive.is_active = false;
    assert_eq!(
        withdraw(&mut s.t, &inactive, addr(3), addr(5), 10, T, T, &mut s.trail),
        Err(ErrorCode::UnauthorizedUser)
    );
}

#[test]
fn pause_is_not_idempotent() {
    let mut s = setup(3600, 1000, T);
    let admin = s.admin;
    assert_eq!(unpause_treasury(&mut s.t, &admin, addr(2), T, &mut s.trail), Err(ErrorCode::TreasuryAlreadyUnpaused));
    pause_treasury(&mut s.t, &admin, addr(2), T, &mut s.trail).unwrap();
    assert_eq!(pause_treasury(&mut s.t, &admin, addr(2), T, &mut s.trail), Err(ErrorCode::TreasuryAlreadyPaused));
    assert!(s.t.is_paused);
}

#[test]
fn recipient_label_is_bounded() {
    let mut s = setup(3600, 1000, T);
    let admin = s.admin;
    let ok = add_whitelisted_recipient(&s.t, &admin, addr(2), addr(5), "x".repeat(32), T, &mut s.trail);
    assert!(ok.is_ok());
    let long = add_whitelisted_recipient(&s.t, &admin, addr(2), addr(5), "x".repeat(33), T, &mut s.trail);
    assert_eq!(long.unwrap_err(), ErrorCode::InvalidRecipientName);
}

#[test]
fn schedule_validation() {
    let mut s = setup(3600, 1000, T);
    let admin = s.admin;
    let r = whitelist(&mut s, addr(5), T);
    let e = |s: &mut Setup, amount: u64, at: i64, rec: bool, iv: u64| {
        schedule_payout(&mut s.t, &admin, addr(2), &r, amount, at, rec, iv, None, T, &mut s.trail).unwrap_err()
    };
    assert_eq!(e(&mut s, 0, T + 1, false, 0), ErrorCode::InvalidWithdrawAmount);
    assert_eq!(e(&mut s, 5, T, false, 0), ErrorCode::InvalidScheduleTime);
    assert_eq!(e(&mut s, 5, T + 1, true, 0), ErrorCode::InvalidRecurrenceInterval);
    let mut off = r.clone();
    off.is_active = false;
    let res = schedule_payout(&mut s.t, &admin, addr(2), &off, 5, T + 1, false, 0, None, T, &mut s.trail);
    assert_eq!(res.unwrap_err(), ErrorCode::RecipientNotActive);
    assert_eq!(s.t.next_payout_index, 0);
    let a = schedule(&mut s, &r, 5, T + 1, false, 0, T);
    let b = schedule(&mut s, &r, 5, T + 1, false, 0, T);
    assert_eq!((a.index, b.index), (0, 1));
    assert_eq!(s.t.next_payout_index, 2);
    s.t.next_payout_index = u64::MAX;
    assert_eq!(e(&mut s, 5, T + 1, false, 0), ErrorCode::ArithmeticOverflow);
}

#[test]
fn next_payout_index_counts_up() {
    let mut s = setup(3600, 1000, T);
    assert_eq!(s.t.get_next_payout_index(), Ok(0));
    assert_eq!(s.t.get_next_payout_index(), Ok(1));
    s.t.next_payout_index = u64::MAX;
    assert_eq!(s.t.get_next_payout_index(), Err(ErrorCode::ArithmeticOverflow));
    assert_eq!(s.t.next_payout_index, u64::MAX);
}

#[test]
fn execute_payout_errors() {
    let mut s = setup(3600, 100, T);
    deposit(&mut s.t, addr(9), 50, T, T, &mut s.trail).unwrap();
    let r = whitelist(&mut s, addr(5), T);
    let mut p = schedule(&mut s, &r, 80, T + 10, false, 0, T);
    assert_eq!(execute(&mut s, &mut p, &r, &[], T + 10), Err(ErrorCode::InsufficientFunds));
    deposit(&mut s.t, addr(9), 500, T, T, &mut s.trail).unwrap();
    let mut q = schedule(&mut s, &r, 30, T + 10, false, 0, T);
    assert_eq!(execute(&mut s, &mut p, &r, &[], T + 10), Ok(()));
    assert_eq!(execute(&mut s, &mut q, &r, &[], T + 10), Err(ErrorCode::SpendingLimitExceeded));
    let other = whitelist(&mut s, addr(6), T);
    assert_eq!(execute(&mut s, &mut q, &other, &[], T + 10), Err(ErrorCode::RecipientNotWhitelisted));
    let mut off = r.clone();
    off.is_active = false;
    assert_eq!(execute(&mut s, &mut q, &off, &[], T + 10), Err(ErrorCode::RecipientNotActive));
    let admin = s.admin;
    let res = execute_payout(&mut s.t, &mut q, &admin, addr(2), &r, &[], T + 11, T + 10, &mut s.trail);
    assert_eq!(res, Err(ErrorCode::InvalidTimestamp));
    let mut token_p = schedule_payout(&mut s.t, &admin, addr(2), &r, 5, T + 10, false, 0, Some(addr(40)), T, &mut s.trail).unwrap();
    assert_eq!(execute(&mut s, &mut token_p, &r, &[], T + 10), Err(ErrorCode::InvalidTokenMint));
}

#[test]
fn withdraw_validation() {
    let mut s = setup(3600, 1000, T);
    deposit(&mut s.t, addr(9), 500, T, T, &mut s.trail).unwrap();
    let admin = s.admin;
    assert_eq!(
        withdraw(&mut s.t, &admin, addr(2), addr(5), 0, T, T, &mut s.trail),
        Err(ErrorCode::InvalidWithdrawAmount)
    );
    assert_eq!(
        withdraw(&mut s.t, &admin, addr(2), addr(5), 10, T + 1, T, &mut s.trail),
        Err(ErrorCode::InvalidTimestamp)
    );
    let mut foreign = admin;
    foreign.treasury = addr(77);
    assert_eq!(
        withdraw(&mut s.t, &foreign, addr(2), addr(5), 10, T, T, &mut s.trail),
        Err(ErrorCode::UnauthorizedUser)
    );
    assert_eq!(s.t.total_funds, 500);
    assert_eq!(s.t.epoch_spending, 0);
}
