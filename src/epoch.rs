use vstd::prelude::*;

use crate::error::ErrorCode;

verus! {

/// Whether the window that started at `start` has run out at `now`.
pub open spec fn window_elapsed(start: i64, duration: u64, now: i64) -> bool {
    now as int >= start as int + duration as int
}

/// What a spend accepted by the epoch policy commits.
#[derive(Clone, Copy, Debug)]
pub struct SpendPlan {
    /// Start of the window that the spend is counted in.
    pub window_start: i64,
    /// Number of that window.
    pub window_id: u64,
    /// Whether the spend opens a fresh window.
    pub rolled: bool,
    /// The counter's value in its window before the spend, reported when the
    /// window is reset.
    pub previous_spent: u64,
    /// The counter after the spend.
    pub new_spent: u64,
}

/// The epoch policy. The window `start`/`duration`, numbered `window_id`, is
/// shared by every asset; `counter` is the spent amount of the asset at hand
/// and `counter_current` says whether it was counted in that window. A window
/// that has run out is replaced by one starting at `now`, numbered one higher
/// (the number must fit in a u64), with the counter at 0; then the sum of the
/// counter and `amount` must fit in a u64 and stay within `limit`.
pub open spec fn spend_outcome(
    start: i64,
    duration: u64,
    limit: u64,
    window_id: u64,
    counter: u64,
    counter_current: bool,
    amount: u64,
    now: i64,
) -> Result<SpendPlan, ErrorCode> {
    let rolled = window_elapsed(start, duration, now);
    let previous: u64 = if counter_current {
        counter
    } else {
        0
    };
    let base: int = if rolled {
        0
    } else {
        previous as int
    };
    let candidate = base + amount as int;
    if rolled && window_id == u64::MAX {
        Err(ErrorCode::ArithmeticOverflow)
    } else if candidate > u64::MAX as int {
        Err(ErrorCode::ArithmeticOverflow)
    } else if candidate > limit as int {
        Err(ErrorCode::SpendingLimitExceeded)
    } else {
        Ok(
            SpendPlan {
                window_start: if rolled {
                    now
                } else {
                    start
                },
                window_id: if rolled {
                    (window_id + 1) as u64
                } else {
                    window_id
                },
                rolled,
                previous_spent: previous,
                new_spent: candidate as u64,
            },
        )
    }
}

pub fn epoch_elapsed(start: i64, duration: u64, now: i64) -> (r: bool)
    ensures
        r == window_elapsed(start, duration, now),
{
    (now as i128) >= (start as i128) + (duration as i128)
}

pub fn plan_spend(
    start: i64,
    duration: u64,
    limit: u64,
    window_id: u64,
    counter: u64,
    counter_current: bool,
    amount: u64,
    now: i64,
) -> (r: Result<SpendPlan, ErrorCode>)
    ensures
        r == spend_outcome(start, duration, limit, window_id, counter, counter_current, amount, now),
        r matches Ok(p) ==> p.new_spent <= limit,
{
    let rolled = epoch_elapsed(start, duration, now);
    if rolled && window_id == u64::MAX {
        return Err(ErrorCode::ArithmeticOverflow);
    }
    let previous: u64 = if counter_current {
        counter
    } else {
        0
    };
    let base: u64 = if rolled {
        0
    } else {
        previous
    };
    let candidate = match base.checked_add(amount) {
        Some(c) => c,
        None => {
            return Err(ErrorCode::ArithmeticOverflow);
        },
    };
    if candidate > limit {
        return Err(ErrorCode::SpendingLimitExceeded);
    }
    Ok(
        SpendPlan {
            window_start: if rolled {
                now
            } else {
                start
            },
            window_id: if rolled {
                window_id + 1
            } else {
                window_id
            },
            rolled,
            previous_spent: previous,
            new_spent: candidate,
        },
    )
}

} // verus!
