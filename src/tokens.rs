use vstd::prelude::*;

use crate::address::Address;
use crate::audit::{audit_entry, AuditAction, AuditLog, AuditTrail};
use crate::error::ErrorCode;
use crate::instructions::{auth_error, authorize};
use crate::payouts::{
    after_asset_spend_balance, after_asset_spend_treasury, asset_reset_records, asset_spend,
    spend_asset,
};
use crate::state::{Role, TokenBalance, Treasury, TreasuryUser};
use crate::token_account::{check_token_account, held_amount, token_account_error};

verus! {

// ---------------------------------------------------------------------------
// deposit_token
// ---------------------------------------------------------------------------
/// The asset balance a deposit adds to: the existing record, or a fresh one.
pub open spec fn balance_or_new(b: Option<TokenBalance>, treasury: Address, mint: Address) -> TokenBalance {
    match b {
        Some(x) => x,
        None => TokenBalance {
            treasury,
            token_mint: mint,
            balance: 0,
            epoch_spending: 0,
            epoch_id: 0,
        },
    }
}

pub open spec fn deposit_token_error(
    t: Treasury,
    b: Option<TokenBalance>,
    depositor: Address,
    mint: Address,
    depositor_account: Seq<u8>,
    treasury_account: Seq<u8>,
    amount: u64,
    timestamp: i64,
    now: i64,
) -> Option<ErrorCode> {
    if amount == 0 {
        Some(ErrorCode::InvalidDepositAmount)
    } else if timestamp > now {
        Some(ErrorCode::InvalidTimestamp)
    } else if token_account_error(depositor_account, depositor, mint) is Some {
        token_account_error(depositor_account, depositor, mint)
    } else if held_amount(depositor_account) < amount {
        Some(ErrorCode::InsufficientTokenBalance)
    } else if token_account_error(treasury_account, t.key, mint) is Some {
        token_account_error(treasury_account, t.key, mint)
    } else if b matches Some(x) && (x.treasury != t.key || x.token_mint != mint) {
        Some(ErrorCode::InvalidTokenMint)
    } else if balance_or_new(b, t.key, mint).balance as int + amount as int > u64::MAX as int {
        Some(ErrorCode::ArithmeticOverflow)
    } else {
        None
    }
}

/// Adds a deposit of asset `mint` to its balance record, creating the record
/// on the asset's first deposit. `depositor_account` must be the depositor's
/// token account of the asset, holding at least `amount`, and
/// `treasury_account` the treasury's. Anyone may deposit.
pub fn deposit_token(
    t: &Treasury,
    b: &mut Option<TokenBalance>,
    depositor: Address,
    mint: Address,
    depositor_account: &[u8],
    treasury_account: &[u8],
    amount: u64,
    timestamp: i64,
    now: i64,
    trail: &mut AuditTrail,
) -> (r: Result<(), ErrorCode>)
    ensures
        match r {
            Ok(()) => {
                let base = balance_or_new(*old(b), t.key, mint);
                &&& deposit_token_error(
                    *t,
                    *old(b),
                    depositor,
                    mint,
                    depositor_account@,
                    treasury_account@,
                    amount,
                    timestamp,
                    now,
                ) is None
                &&& *final(b) == Some(
                    TokenBalance { balance: (base.balance + amount) as u64, ..base },
                )
                &&& final(trail)@ == old(trail)@.push(
                    audit_entry(
                        AuditAction::TokenDeposit,
                        t.key,
                        depositor,
                        Some(mint),
                        amount,
                        timestamp,
                        Some(mint),
                    ),
                )
            },
            Err(e) => {
                &&& deposit_token_error(
                    *t,
                    *old(b),
                    depositor,
                    mint,
                    depositor_account@,
                    treasury_account@,
                    amount,
                    timestamp,
                    now,
                ) == Some(e)
                &&& *final(b) == *old(b)
                &&& final(trail)@ == old(trail)@
            },
        },
{
    if amount == 0 {
        return Err(ErrorCode::InvalidDepositAmount);
    }
    if timestamp > now {
        return Err(ErrorCode::InvalidTimestamp);
    }
    let held = check_token_account(depositor_account, depositor, mint)?;
    if held < amount {
        return Err(ErrorCode::InsufficientTokenBalance);
    }
    check_token_account(treasury_account, t.key, mint)?;
    let base = match *b {
        Some(x) => {
            if !(x.treasury == t.key) || !(x.token_mint == mint) {
                return Err(ErrorCode::InvalidTokenMint);
            }
            x
        },
        None => TokenBalance::new(t.key, mint),
    };
    let total = match base.balance.checked_add(amount) {
        Some(v) => v,
        None => {
            return Err(ErrorCode::ArithmeticOverflow);
        },
    };
    *b = Some(TokenBalance { balance: total, ..base });
    trail.record(
        AuditLog {
            action: AuditAction::TokenDeposit,
            treasury: t.key,
            initiator: depositor,
            target: Some(mint),
            amount,
            timestamp,
            token_mint: Some(mint),
        },
    );
    Ok(())
}

// ---------------------------------------------------------------------------
// withdraw_token
// ---------------------------------------------------------------------------
pub open spec fn withdraw_token_error(
    t: Treasury,
    b: TokenBalance,
    user: TreasuryUser,
    caller: Address,
    recipient: Address,
    mint: Address,
    treasury_account: Seq<u8>,
    recipient_account: Seq<u8>,
    amount: u64,
    timestamp: i64,
    now: i64,
) -> Option<ErrorCode> {
    match auth_error(t, user, caller, Role::Treasurer, ErrorCode::UnauthorizedWithdrawal) {
        Some(e) => Some(e),
        None => if t.is_paused {
            Some(ErrorCode::TreasuryPaused)
        } else if amount == 0 {
            Some(ErrorCode::InvalidWithdrawAmount)
        } else if timestamp > now {
            Some(ErrorCode::InvalidTimestamp)
        } else if b.treasury != t.key || b.token_mint != mint {
            Some(ErrorCode::InvalidTokenMint)
        } else if b.balance < amount {
            Some(ErrorCode::InsufficientTokenBalance)
        } else if token_account_error(treasury_account, t.key, mint) is Some {
            token_account_error(treasury_account, t.key, mint)
        } else if token_account_error(recipient_account, recipient, mint) is Some {
            token_account_error(recipient_account, recipient, mint)
        } else {
            match asset_spend(t, b, amount, now) {
                Err(e) => Some(e),
                Ok(_) => None,
            }
        },
    }
}

/// Pays `amount` of asset `mint` to `recipient`, under the epoch policy on
/// that asset's counter. `treasury_account` must be the treasury's token
/// account of the asset and `recipient_account` the recipient's.
pub fn withdraw_token(
    t: &mut Treasury,
    b: &mut TokenBalance,
    user: &TreasuryUser,
    caller: Address,
    recipient: Address,
    mint: Address,
    treasury_account: &[u8],
    recipient_account: &[u8],
    amount: u64,
    timestamp: i64,
    now: i64,
    trail: &mut AuditTrail,
) -> (r: Result<(), ErrorCode>)
    ensures
        match r {
            Ok(()) => {
                let p = asset_spend(*old(t), *old(b), amount, now)->Ok_0;
                &&& withdraw_token_error(
                    *old(t),
                    *old(b),
                    *user,
                    caller,
                    recipient,
                    mint,
                    treasury_account@,
                    recipient_account@,
                    amount,
                    timestamp,
                    now,
                ) is None
                &&& *final(t) == after_asset_spend_treasury(*old(t), p)
                &&& old(t).wf() ==> final(t).wf()
                &&& *final(b) == after_asset_spend_balance(*old(b), amount, p)
                &&& final(b).epoch_spending <= final(t).spending_limit
                &&& final(b).epoch_id == final(t).epoch_id
                &&& final(trail)@ == (old(trail)@ + asset_reset_records(
                    *old(t),
                    caller,
                    p,
                    now,
                    mint,
                )).push(
                    audit_entry(
                        AuditAction::Withdraw,
                        old(t).key,
                        caller,
                        Some(recipient),
                        amount,
                        timestamp,
                        Some(mint),
                    ),
                )
            },
            Err(e) => {
                &&& withdraw_token_error(
                    *old(t),
                    *old(b),
                    *user,
                    caller,
                    recipient,
                    mint,
                    treasury_account@,
                    recipient_account@,
                    amount,
                    timestamp,
                    now,
                ) == Some(e)
                &&& *final(t) == *old(t)
                &&& *final(b) == *old(b)
                &&& final(trail)@ == old(trail)@
            },
        },
{
    authorize(t, user, caller, Role::Treasurer, ErrorCode::UnauthorizedWithdrawal)?;
    if t.is_paused {
        return Err(ErrorCode::TreasuryPaused);
    }
    if amount == 0 {
        return Err(ErrorCode::InvalidWithdrawAmount);
    }
    if timestamp > now {
        return Err(ErrorCode::InvalidTimestamp);
    }
    if !(b.treasury == t.key) || !(b.token_mint == mint) {
        return Err(ErrorCode::InvalidTokenMint);
    }
    if b.balance < amount {
        return Err(ErrorCode::InsufficientTokenBalance);
    }
    check_token_account(treasury_account, t.key, mint)?;
    check_token_account(recipient_account, recipient, mint)?;
    spend_asset(t, b, amount, caller, now, trail)?;
    trail.record(
        AuditLog {
            action: AuditAction::Withdraw,
            treasury: t.key,
            initiator: caller,
            target: Some(recipient),
            amount,
            timestamp,
            token_mint: Some(mint),
        },
    );
    Ok(())
}

} // verus!
