//! How much notional value to open per symbol for the minute and hour strategies,
//! and how many units that is at a price.
use vstd::prelude::*;
use crate::decimal::{
    Dec, pow10, add_spec, sub_spec, mul_spec, div_spec, min_spec, max_spec, round_dp_spec, sum_in_range,
    product_in_range, quotient_in_range,
};
use crate::engine::account_pool::AccountPool;
use crate::engine::margin_config::{StrategyLevel, MarginPoolConfig, max_single_notional};

verus! {

/// The sizing of new positions for one strategy level.
#[derive(Debug, Clone)]
pub struct MinuteOpenResult {
    pub effective_margin: Dec,
    pub total_available_margin: Dec,
    /// Margin that may go to new positions.
    pub total_new_open_margin: Dec,
    pub target_symbol_count: Dec,
    pub max_single_notional: Dec,
    pub actual_notional_per_symbol: Dec,
    pub meets_min_threshold: bool,
    /// Margin left after every current symbol got its notional.
    pub remaining_margin: Dec,
}

/// The cap on one symbol's notional value.
pub open spec fn single_cap() -> Dec {
    Dec::of_parts(5000, 0)
}

/// The notional per symbol before the caps: the minimum while there is no margin, no
/// symbol, or no more margin than the threshold; with fewer symbols than the target,
/// the minimum plus the margin above the threshold (levered) shared among the
/// symbols; else the levered margin shared into `shares` parts.
pub open spec fn raw_notional(tnom: Dec, count: Dec, lev: Dec, min_n: Dec, thr: Dec, target: Dec, shares: Dec) -> Dec {
    if tnom.val() <= 0 || count.val() <= 0 || tnom.val() <= thr.val() {
        min_n
    } else if count.val() < target.val() {
        add_spec(min_n, div_spec(mul_spec(sub_spec(tnom, thr), lev), count))
    } else {
        div_spec(mul_spec(tnom, lev), shares)
    }
}

/// The notional per symbol: the raw value capped at 5000 and floored at the minimum
/// (when there is margin to open with).
pub open spec fn per_symbol_notional(tnom: Dec, count: Dec, lev: Dec, min_n: Dec, thr: Dec, target: Dec, shares: Dec) -> Dec {
    if tnom.val() <= 0 {
        min_n
    } else {
        max_spec(min_spec(raw_notional(tnom, count, lev, min_n, thr, target, shares), single_cap()), min_n)
    }
}

/// The margin left: new-open margin minus what the current symbols use at that
/// notional, not below zero.
pub open spec fn remaining_spec(tnom: Dec, count: Dec, lev: Dec, actual: Dec) -> Dec {
    if tnom.val() <= 0 || count.val() <= 0 {
        Dec::of_parts(0, 0)
    } else {
        max_spec(sub_spec(tnom, div_spec(mul_spec(actual, count), lev)), Dec::of_parts(0, 0))
    }
}

/// The sizing does not overflow and never divides by zero.
pub open spec fn allocate_ok(tnom: Dec, count: Dec, lev: Dec, min_n: Dec, thr: Dec, target: Dec, shares: Dec) -> bool {
    let actual = per_symbol_notional(tnom, count, lev, min_n, thr, target, shares);
    tnom.val() > 0 && count.val() > 0 ==> {
        &&& tnom.val() > thr.val() && count.val() < target.val() ==> {
            &&& sum_in_range(tnom, thr, -1)
            &&& product_in_range(sub_spec(tnom, thr), lev)
            &&& quotient_in_range(mul_spec(sub_spec(tnom, thr), lev), count)
            &&& sum_in_range(min_n, div_spec(mul_spec(sub_spec(tnom, thr), lev), count), 1)
        }
        &&& tnom.val() > thr.val() && count.val() >= target.val() ==> {
            &&& product_in_range(tnom, lev)
            &&& quotient_in_range(mul_spec(tnom, lev), shares)
        }
        &&& product_in_range(actual, count)
        &&& quotient_in_range(mul_spec(actual, count), lev)
        &&& sum_in_range(tnom, div_spec(mul_spec(actual, count), lev), -1)
    }
}

/// Shares the new-open margin `tnom` among `count` symbols; returns the notional per
/// symbol and the remaining margin.
fn allocate(tnom: &Dec, count: &Dec, lev: &Dec, min_n: &Dec, thr: &Dec, target: &Dec, shares: &Dec) -> (r: (Dec, Dec))
    requires
        allocate_ok(*tnom, *count, *lev, *min_n, *thr, *target, *shares),
    ensures
        r.0 == per_symbol_notional(*tnom, *count, *lev, *min_n, *thr, *target, *shares),
        r.1 == remaining_spec(*tnom, *count, *lev, r.0),
{
    proof {
        Dec::lemma_of_parts(0, 0);
        Dec::lemma_of_parts(5000, 0);
    }
    let zero = Dec::zero();
    proof {
        Dec::lemma_parts_eq(zero, Dec::of_parts(0, 0));
    }
    if tnom.le(&zero) {
        return (min_n.copy(), zero);
    }
    let raw = if count.le(&zero) || tnom.le(thr) {
        min_n.copy()
    } else if count.lt(target) {
        let excess_margin = tnom.sub(thr);
        let excess_notional = excess_margin.mul(lev);
        let per_symbol_excess = excess_notional.div(count);
        min_n.add(&per_symbol_excess)
    } else {
        tnom.mul(lev).div(shares)
    };
    let cap = max_single_notional();
    proof {
        Dec::lemma_parts_eq(cap, single_cap());
    }
    let actual = raw.min(&cap).max(min_n);
    let mut remaining = zero.copy();
    if count.gt(&zero) {
        let used_margin = actual.mul(count).div(lev);
        remaining = tnom.sub(&used_margin).max(&zero);
    }
    (actual, remaining)
}

/// `allocate` with every step of the decimal arithmetic checked: `None` where one
/// overflows or divides by zero, which never happens when `allocate_ok` holds.
fn allocate_checked(tnom: &Dec, count: &Dec, lev: &Dec, min_n: &Dec, thr: &Dec, target: &Dec, shares: &Dec) -> (r: Option<(Dec, Dec)>)
    ensures
        allocate_ok(*tnom, *count, *lev, *min_n, *thr, *target, *shares) ==> r is Some,
        r matches Some(v) ==> v.0 == per_symbol_notional(*tnom, *count, *lev, *min_n, *thr, *target, *shares)
            && v.1 == remaining_spec(*tnom, *count, *lev, v.0),
{
    proof {
        Dec::lemma_of_parts(0, 0);
        Dec::lemma_of_parts(5000, 0);
    }
    let zero = Dec::zero();
    proof {
        Dec::lemma_parts_eq(zero, Dec::of_parts(0, 0));
    }
    if tnom.le(&zero) {
        return Some((min_n.copy(), zero));
    }
    let raw = if count.le(&zero) || tnom.le(thr) {
        min_n.copy()
    } else if count.lt(target) {
        let excess_margin = match tnom.checked_sub(thr) {
            Some(x) => x,
            None => return None,
        };
        let excess_notional = match excess_margin.checked_mul(lev) {
            Some(x) => x,
            None => return None,
        };
        let per_symbol_excess = match excess_notional.checked_div(count) {
            Some(x) => x,
            None => return None,
        };
        match min_n.checked_add(&per_symbol_excess) {
            Some(x) => x,
            None => return None,
        }
    } else {
        let levered = match tnom.checked_mul(lev) {
            Some(x) => x,
            None => return None,
        };
        match levered.checked_div(shares) {
            Some(x) => x,
            None => return None,
        }
    };
    let cap = max_single_notional();
    proof {
        Dec::lemma_parts_eq(cap, single_cap());
    }
    let actual = raw.min(&cap).max(min_n);
    let mut remaining = zero.copy();
    if count.gt(&zero) {
        let used_notional = match actual.checked_mul(count) {
            Some(x) => x,
            None => return None,
        };
        let used_margin = match used_notional.checked_div(lev) {
            Some(x) => x,
            None => return None,
        };
        remaining = match tnom.checked_sub(&used_margin) {
            Some(x) => x.max(&zero),
            None => return None,
        };
    }
    Some((actual, remaining))
}

/// The account's available margin and the new-open margin of a level.
pub open spec fn available_of(p: AccountPool) -> Dec {
    mul_spec(p.account.total_equity, Dec::of_parts(8, 1))
}

/// Minute sizing: 15 % of the available margin, 50 target symbols, 5 minimum, 250
/// threshold.
pub open spec fn minute_new_open(p: AccountPool) -> Dec {
    mul_spec(available_of(p), Dec::of_parts(15, 2))
}

/// Hour sizing: 30 % of the available margin.
pub open spec fn hour_new_open(p: AccountPool) -> Dec {
    mul_spec(available_of(p), Dec::of_parts(3, 1))
}

/// What the minute sizing needs to compute.
pub open spec fn minute_ok(p: AccountPool, count: Dec, lev: Dec) -> bool {
    &&& product_in_range(p.account.total_equity, Dec::of_parts(8, 1))
    &&& product_in_range(available_of(p), Dec::of_parts(15, 2))
    &&& allocate_ok(
        minute_new_open(p),
        count,
        lev,
        Dec::of_parts(5, 0),
        Dec::of_parts(250, 0),
        Dec::of_parts(50, 0),
        Dec::of_parts(50, 0),
    )
}

/// The hour threshold in margin: 500 of notional at the leverage.
pub open spec fn hour_threshold_margin(lev: Dec) -> Dec {
    div_spec(Dec::of_parts(500, 0), lev)
}

/// What the hour sizing needs to compute.
pub open spec fn hour_ok(p: AccountPool, count: Dec, lev: Dec) -> bool {
    &&& product_in_range(p.account.total_equity, Dec::of_parts(8, 1))
    &&& product_in_range(available_of(p), Dec::of_parts(3, 1))
    &&& quotient_in_range(Dec::of_parts(500, 0), lev)
    &&& allocate_ok(
        hour_new_open(p),
        count,
        lev,
        Dec::of_parts(5, 0),
        hour_threshold_margin(lev),
        Dec::of_parts(10, 0),
        Dec::of_parts(100, 0),
    )
}

/// The minute sizing for the pool, `count` symbols and leverage `lev`: 15 % of the
/// available margin shared out (`per_symbol_notional`) with a 250 threshold.
pub open spec fn minute_sized(p: AccountPool, count: Dec, lev: Dec, r: MinuteOpenResult) -> bool {
    let tnom = minute_new_open(p);
    let actual = per_symbol_notional(
        tnom,
        count,
        lev,
        Dec::of_parts(5, 0),
        Dec::of_parts(250, 0),
        Dec::of_parts(50, 0),
        Dec::of_parts(50, 0),
    );
    &&& r.effective_margin == p.account.total_equity
    &&& r.total_available_margin == available_of(p)
    &&& r.total_new_open_margin == tnom
    &&& r.target_symbol_count == Dec::of_parts(50, 0)
    &&& r.max_single_notional == single_cap()
    &&& r.actual_notional_per_symbol == actual
    &&& r.meets_min_threshold == (actual.val() >= 250 * pow10(28))
    &&& r.remaining_margin == remaining_spec(tnom, count, lev, actual)
}

/// The hour sizing: 30 % of the available margin shared out in 100 parts, with a
/// threshold of 500 notional.
pub open spec fn hour_sized(p: AccountPool, count: Dec, lev: Dec, r: MinuteOpenResult) -> bool {
    let tnom = hour_new_open(p);
    let actual = per_symbol_notional(
        tnom,
        count,
        lev,
        Dec::of_parts(5, 0),
        hour_threshold_margin(lev),
        Dec::of_parts(10, 0),
        Dec::of_parts(100, 0),
    );
    &&& r.effective_margin == p.account.total_equity
    &&& r.total_available_margin == available_of(p)
    &&& r.total_new_open_margin == tnom
    &&& r.target_symbol_count == Dec::of_parts(10, 0)
    &&& r.max_single_notional == single_cap()
    &&& r.actual_notional_per_symbol == actual
    &&& r.meets_min_threshold == (actual.val() >= 500 * pow10(28))
    &&& r.remaining_margin == remaining_spec(tnom, count, lev, actual)
}

/// The notional value per symbol for the minute strategy, with `current_symbol_count`
/// symbols trading at `leverage`.
pub fn calculate_minute_open_notional(account_pool: &AccountPool, current_symbol_count: Dec, leverage: Dec) -> (r: MinuteOpenResult)
    requires
        minute_ok(*account_pool, current_symbol_count, leverage),
    ensures
        minute_sized(*account_pool, current_symbol_count, leverage, r),
{
    let cfg = MarginPoolConfig::default_config();
    let account_margin = account_pool.get_account_margin(StrategyLevel::Minute);
    proof {
        Dec::lemma_of_parts(15, 2);
        Dec::lemma_parts_eq(cfg.minute.new_open_ratio, Dec::of_parts(15, 2));
        Dec::lemma_of_parts(5, 0);
        Dec::lemma_parts_eq(cfg.minute_open.min_notional_per_symbol, Dec::of_parts(5, 0));
        Dec::lemma_of_parts(250, 0);
        Dec::lemma_parts_eq(cfg.minute_open.threshold_amount, Dec::of_parts(250, 0));
        Dec::lemma_of_parts(50, 0);
        Dec::lemma_of_parts(5000, 0);
        crate::decimal::lemma_pow10_28();
    }
    let total_new_open_margin = account_margin.total_available_margin.mul(&cfg.minute.new_open_ratio);
    let target_count = Dec::from_int(cfg.minute_open.target_symbol_count as i64);
    proof {
        Dec::lemma_parts_eq(target_count, Dec::of_parts(50, 0));
    }
    let threshold = cfg.minute_open.threshold_amount;
    let (actual, remaining) = allocate(
        &total_new_open_margin,
        &current_symbol_count,
        &leverage,
        &cfg.minute_open.min_notional_per_symbol,
        &threshold,
        &target_count,
        &target_count,
    );
    let meets_min_threshold = actual.ge(&threshold);
    let cap = max_single_notional();
    proof {
        Dec::lemma_parts_eq(cap, single_cap());
    }
    MinuteOpenResult {
        effective_margin: account_margin.effective_margin,
        total_available_margin: account_margin.total_available_margin,
        total_new_open_margin,
        target_symbol_count: target_count,
        max_single_notional: cap,
        actual_notional_per_symbol: actual,
        meets_min_threshold,
        remaining_margin: remaining,
    }
}

/// The notional value per symbol for the hour strategy: 10 target symbols with 10
/// additions each make 100 shares; the 500 threshold is notional, so in margin it is
/// divided by the leverage.
pub fn calculate_hour_open_notional(account_pool: &AccountPool, current_symbol_count: Dec, leverage: Dec) -> (r: MinuteOpenResult)
    requires
        hour_ok(*account_pool, current_symbol_count, leverage),
    ensures
        hour_sized(*account_pool, current_symbol_count, leverage, r),
{
    let cfg = MarginPoolConfig::default_config();
    let account_margin = account_pool.get_account_margin(StrategyLevel::Hour);
    proof {
        Dec::lemma_of_parts(3, 1);
        Dec::lemma_parts_eq(cfg.hour.new_open_ratio, Dec::of_parts(3, 1));
        Dec::lemma_of_parts(5, 0);
        Dec::lemma_parts_eq(cfg.hour_open.min_notional_per_symbol, Dec::of_parts(5, 0));
        Dec::lemma_of_parts(500, 0);
        Dec::lemma_parts_eq(cfg.hour_open.threshold_notional, Dec::of_parts(500, 0));
        Dec::lemma_of_parts(10, 0);
        Dec::lemma_of_parts(100, 0);
        Dec::lemma_of_parts(5000, 0);
        crate::decimal::lemma_pow10_28();
    }
    let total_new_open_margin = account_margin.total_available_margin.mul(&cfg.hour.new_open_ratio);
    let target_count = Dec::from_int(cfg.hour_open.target_symbol_count as i64);
    let add_times = Dec::from_int(cfg.hour_open.add_times as i64);
    proof {
        Dec::lemma_parts_eq(target_count, Dec::of_parts(10, 0));
        Dec::lemma_parts_eq(add_times, Dec::of_parts(10, 0));
        assert(10 * pow10(28) * (10 * pow10(28)) < crate::decimal::value_limit() * pow10(28)) by (nonlinear_arith)
            requires
                pow10(28) == 10000000000000000000000000000,
                crate::decimal::value_limit() == pow10(28) * pow10(28),
        ;
        crate::decimal::lemma_pow10_28();
    }
    let total_target_shares = target_count.mul(&add_times);
    proof {
        Dec::lemma_parts_eq(total_target_shares, Dec::of_parts(100, 0));
    }
    let threshold_notional = cfg.hour_open.threshold_notional;
    let threshold_margin = threshold_notional.div(&leverage);
    let (actual, remaining) = allocate(
        &total_new_open_margin,
        &current_symbol_count,
        &leverage,
        &cfg.hour_open.min_notional_per_symbol,
        &threshold_margin,
        &target_count,
        &total_target_shares,
    );
    let meets_min_threshold = actual.ge(&threshold_notional);
    let cap = max_single_notional();
    proof {
        Dec::lemma_parts_eq(cap, single_cap());
    }
    MinuteOpenResult {
        effective_margin: account_margin.effective_margin,
        total_available_margin: account_margin.total_available_margin,
        total_new_open_margin,
        target_symbol_count: target_count,
        max_single_notional: cap,
        actual_notional_per_symbol: actual,
        meets_min_threshold,
        remaining_margin: remaining,
    }
}

/// `calculate_minute_open_notional` for any input: `None` where a step of the decimal
/// arithmetic would overflow or divide by zero (never when `minute_ok` holds), the
/// minute sizing otherwise.
pub fn calculate_minute_open_notional_checked(account_pool: &AccountPool, current_symbol_count: Dec, leverage: Dec) -> (r: Option<MinuteOpenResult>)
    ensures
        minute_ok(*account_pool, current_symbol_count, leverage) ==> r is Some,
        r matches Some(x) ==> minute_sized(*account_pool, current_symbol_count, leverage, x),
{
    let cfg = MarginPoolConfig::default_config();
    let ratio = Dec::new(8, 1);
    proof {
        Dec::lemma_of_parts(8, 1);
        Dec::lemma_parts_eq(ratio, Dec::of_parts(8, 1));
        Dec::lemma_of_parts(15, 2);
        Dec::lemma_parts_eq(cfg.minute.new_open_ratio, Dec::of_parts(15, 2));
        Dec::lemma_of_parts(5, 0);
        Dec::lemma_parts_eq(cfg.minute_open.min_notional_per_symbol, Dec::of_parts(5, 0));
        Dec::lemma_of_parts(250, 0);
        Dec::lemma_parts_eq(cfg.minute_open.threshold_amount, Dec::of_parts(250, 0));
        Dec::lemma_of_parts(50, 0);
        Dec::lemma_of_parts(5000, 0);
        crate::decimal::lemma_pow10_28();
    }
    let total_available_margin = match account_pool.account.total_equity.checked_mul(&ratio) {
        Some(x) => x,
        None => return None,
    };
    let total_new_open_margin = match total_available_margin.checked_mul(&cfg.minute.new_open_ratio) {
        Some(x) => x,
        None => return None,
    };
    let target_count = Dec::from_int(cfg.minute_open.target_symbol_count as i64);
    proof {
        Dec::lemma_parts_eq(target_count, Dec::of_parts(50, 0));
    }
    let threshold = cfg.minute_open.threshold_amount;
    let (actual, remaining) = match allocate_checked(
        &total_new_open_margin,
        &current_symbol_count,
        &leverage,
        &cfg.minute_open.min_notional_per_symbol,
        &threshold,
        &target_count,
        &target_count,
    ) {
        Some(v) => v,
        None => return None,
    };
    let meets_min_threshold = actual.ge(&threshold);
    let cap = max_single_notional();
    proof {
        Dec::lemma_parts_eq(cap, single_cap());
    }
    Some(
        MinuteOpenResult {
            effective_margin: account_pool.account.total_equity.copy(),
            total_available_margin,
            total_new_open_margin,
            target_symbol_count: target_count,
            max_single_notional: cap,
            actual_notional_per_symbol: actual,
            meets_min_threshold,
            remaining_margin: remaining,
        },
    )
}

/// `calculate_hour_open_notional` for any input: `None` where a step of the decimal
/// arithmetic would overflow or divide by zero (never when `hour_ok` holds), the hour
/// sizing otherwise.
pub fn calculate_hour_open_notional_checked(account_pool: &AccountPool, current_symbol_count: Dec, leverage: Dec) -> (r: Option<MinuteOpenResult>)
    ensures
        hour_ok(*account_pool, current_symbol_count, leverage) ==> r is Some,
        r matches Some(x) ==> hour_sized(*account_pool, current_symbol_count, leverage, x),
{
    let cfg = MarginPoolConfig::default_config();
    let ratio = Dec::new(8, 1);
    proof {
        Dec::lemma_of_parts(8, 1);
        Dec::lemma_parts_eq(ratio, Dec::of_parts(8, 1));
        Dec::lemma_of_parts(3, 1);
        Dec::lemma_parts_eq(cfg.hour.new_open_ratio, Dec::of_parts(3, 1));
        Dec::lemma_of_parts(5, 0);
        Dec::lemma_parts_eq(cfg.hour_open.min_notional_per_symbol, Dec::of_parts(5, 0));
        Dec::lemma_of_parts(500, 0);
        Dec::lemma_parts_eq(cfg.hour_open.threshold_notional, Dec::of_parts(500, 0));
        Dec::lemma_of_parts(10, 0);
        Dec::lemma_of_parts(100, 0);
        Dec::lemma_of_parts(5000, 0);
        crate::decimal::lemma_pow10_28();
    }
    let total_available_margin = match account_pool.account.total_equity.checked_mul(&ratio) {
        Some(x) => x,
        None => return None,
    };
    let total_new_open_margin = match total_available_margin.checked_mul(&cfg.hour.new_open_ratio) {
        Some(x) => x,
        None => return None,
    };
    let target_count = Dec::from_int(cfg.hour_open.target_symbol_count as i64);
    let add_times = Dec::from_int(cfg.hour_open.add_times as i64);
    proof {
        Dec::lemma_parts_eq(target_count, Dec::of_parts(10, 0));
        Dec::lemma_parts_eq(add_times, Dec::of_parts(10, 0));
        assert(10 * pow10(28) * (10 * pow10(28)) < crate::decimal::value_limit() * pow10(28)) by (nonlinear_arith)
            requires
                pow10(28) == 10000000000000000000000000000,
                crate::decimal::value_limit() == pow10(28) * pow10(28),
        ;
        crate::decimal::lemma_pow10_28();
    }
    let total_target_shares = target_count.mul(&add_times);
    proof {
        Dec::lemma_parts_eq(total_target_shares, Dec::of_parts(100, 0));
    }
    let threshold_notional = cfg.hour_open.threshold_notional;
    let threshold_margin = match threshold_notional.checked_div(&leverage) {
        Some(x) => x,
        None => return None,
    };
    let (actual, remaining) = match allocate_checked(
        &total_new_open_margin,
        &current_symbol_count,
        &leverage,
        &cfg.hour_open.min_notional_per_symbol,
        &threshold_margin,
        &target_count,
        &total_target_shares,
    ) {
        Some(v) => v,
        None => return None,
    };
    let meets_min_threshold = actual.ge(&threshold_notional);
    let cap = max_single_notional();
    proof {
        Dec::lemma_parts_eq(cap, single_cap());
    }
    Some(
        MinuteOpenResult {
            effective_margin: account_pool.account.total_equity.copy(),
            total_available_margin,
            total_new_open_margin,
            target_symbol_count: target_count,
            max_single_notional: cap,
            actual_notional_per_symbol: actual,
            meets_min_threshold,
            remaining_margin: remaining,
        },
    )
}

/// The quantity after `k` added steps.
pub open spec fn stepped_qty(start: Dec, step: Dec, k: nat) -> Dec
    decreases k,
{
    if k == 0 {
        start
    } else {
        add_spec(stepped_qty(start, step, (k - 1) as nat), step)
    }
}

/// The value of `qty` at `price` is below `threshold`.
pub open spec fn below_value(qty: Dec, price: Dec, threshold: Dec) -> bool {
    mul_spec(qty, price).val() < threshold.val()
}

/// The first quantity, rounded to whole steps: `round(max(notional / price, min_qty)
/// / step) * step`.
pub open spec fn rounded_start(notional: Dec, price: Dec, min_qty: Dec, step: Dec) -> Dec {
    mul_spec(round_dp_spec(div_spec(max_spec(div_spec(notional, price), min_qty), step), 0), step)
}

/// Adding steps reaches the threshold after `n` of them, and every step on the way
/// computes without overflow.
pub open spec fn reaches_within(start: Dec, step: Dec, price: Dec, threshold: Dec, n: nat) -> bool {
    &&& !below_value(stepped_qty(start, step, n), price, threshold)
    &&& forall|k: nat| k <= n ==> product_in_range(#[trigger] stepped_qty(start, step, k), price)
    &&& forall|k: nat| k < n ==> sum_in_range(#[trigger] stepped_qty(start, step, k), step, 1)
}

/// `n` is the least number of steps after which the value reaches the threshold.
pub open spec fn first_reach(start: Dec, step: Dec, price: Dec, threshold: Dec, n: nat) -> bool {
    &&& !below_value(stepped_qty(start, step, n), price, threshold)
    &&& forall|k: nat| k < n ==> below_value(#[trigger] stepped_qty(start, step, k), price, threshold)
}

/// What the quantity computation needs: the first quantity computes, and adding
/// steps reaches the minimum value.
pub open spec fn open_qty_ok(notional: Dec, price: Dec, min_qty: Dec, step: Dec, threshold: Dec) -> bool {
    notional.val() > 0 && price.val() > 0 ==> {
        &&& quotient_in_range(notional, price)
        &&& quotient_in_range(max_spec(div_spec(notional, price), min_qty), step)
        &&& product_in_range(round_dp_spec(div_spec(max_spec(div_spec(notional, price), min_qty), step), 0), step)
        &&& exists|n: nat| reaches_within(rounded_start(notional, price, min_qty, step), step, price, threshold, n)
    }
}

/// The quantity to open for `open_notional` at `open_price`: at least the minimum
/// quantity, rounded to whole steps, raised step by step until its value reaches
/// `min_value_threshold`, then rounded to the quantity precision.  Without a positive
/// notional or price, the minimum quantity.
pub fn calculate_open_qty_from_notional(
    open_notional: Dec,
    open_price: Dec,
    effective_min_qty: Dec,
    step_size: Dec,
    quantity_precision: u32,
    min_value_threshold: Dec,
) -> (r: Dec)
    requires
        open_qty_ok(open_notional, open_price, effective_min_qty, step_size, min_value_threshold),
    ensures
        open_notional.val() <= 0 || open_price.val() <= 0 ==> r == effective_min_qty,
        open_notional.val() > 0 && open_price.val() > 0 ==> exists|n: nat|
            #[trigger] first_reach(
                rounded_start(open_notional, open_price, effective_min_qty, step_size),
                step_size,
                open_price,
                min_value_threshold,
                n,
            ) && r == round_dp_spec(
                stepped_qty(rounded_start(open_notional, open_price, effective_min_qty, step_size), step_size, n),
                quantity_precision as int,
            ),
{
    if open_notional.le(&Dec::zero()) || open_price.le(&Dec::zero()) {
        return effective_min_qty;
    }
    let base_qty = open_notional.div(&open_price);
    let valid_qty = base_qty.max(&effective_min_qty);
    let rounded_qty = valid_qty.div(&step_size).round().mul(&step_size);
    let ghost start = rounded_start(open_notional, open_price, effective_min_qty, step_size);
    let ghost bound: nat = choose|n: nat| reaches_within(start, step_size, open_price, min_value_threshold, n);
    let mut result = rounded_qty;
    let ghost mut k: nat = 0;
    assert(product_in_range(stepped_qty(start, step_size, 0), open_price));
    while result.mul(&open_price).lt(&min_value_threshold)
        invariant
            reaches_within(start, step_size, open_price, min_value_threshold, bound),
            k <= bound,
            result == stepped_qty(start, step_size, k),
            forall|j: nat| j < k ==> below_value(#[trigger] stepped_qty(start, step_size, j), open_price, min_value_threshold),
        decreases bound - k,
    {
        assert(product_in_range(stepped_qty(start, step_size, k), open_price));
        assert(k != bound);
        assert(sum_in_range(stepped_qty(start, step_size, k), step_size, 1));
        assert(below_value(stepped_qty(start, step_size, k), open_price, min_value_threshold));
        result = result.add(&step_size);
        proof {
            k = k + 1;
            assert(product_in_range(stepped_qty(start, step_size, k), open_price));
        }
    }
    assert(first_reach(start, step_size, open_price, min_value_threshold, k));
    result.round_dp(quantity_precision)
}

/// What `calculate_open_qty_from_notional_checked` needs to return a quantity: for a
/// positive notional and price, the first quantity computes and adding steps reaches
/// the minimum value within `max_steps` steps.
pub open spec fn open_qty_within(notional: Dec, price: Dec, min_qty: Dec, step: Dec, threshold: Dec, max_steps: u64) -> bool {
    notional.val() > 0 && price.val() > 0 ==> {
        &&& quotient_in_range(notional, price)
        &&& quotient_in_range(max_spec(div_spec(notional, price), min_qty), step)
        &&& product_in_range(round_dp_spec(div_spec(max_spec(div_spec(notional, price), min_qty), step), 0), step)
        &&& exists|n: nat| n <= max_steps && #[trigger] reaches_within(rounded_start(notional, price, min_qty, step), step, price, threshold, n)
    }
}

/// `calculate_open_qty_from_notional` for any input, raising at most `max_steps`
/// times: `None` where a step of the decimal arithmetic overflows or the minimum value
/// is not reached within the steps.
pub fn calculate_open_qty_from_notional_checked(
    open_notional: Dec,
    open_price: Dec,
    effective_min_qty: Dec,
    step_size: Dec,
    quantity_precision: u32,
    min_value_threshold: Dec,
    max_steps: u64,
) -> (r: Option<Dec>)
    ensures
        open_qty_within(open_notional, open_price, effective_min_qty, step_size, min_value_threshold, max_steps)
            ==> r is Some,
        open_notional.val() <= 0 || open_price.val() <= 0 ==> r == Some(effective_min_qty),
        r matches Some(q) ==> (open_notional.val() > 0 && open_price.val() > 0 ==> exists|n: nat|
            #[trigger] first_reach(
                rounded_start(open_notional, open_price, effective_min_qty, step_size),
                step_size,
                open_price,
                min_value_threshold,
                n,
            ) && q == round_dp_spec(
                stepped_qty(rounded_start(open_notional, open_price, effective_min_qty, step_size), step_size, n),
                quantity_precision as int,
            )),
{
    if open_notional.le(&Dec::zero()) || open_price.le(&Dec::zero()) {
        return Some(effective_min_qty);
    }
    let base_qty = match open_notional.checked_div(&open_price) {
        Some(x) => x,
        None => return None,
    };
    let valid_qty = base_qty.max(&effective_min_qty);
    let steps = match valid_qty.checked_div(&step_size) {
        Some(x) => x,
        None => return None,
    };
    let start = match steps.round().checked_mul(&step_size) {
        Some(x) => x,
        None => return None,
    };
    assert(start == rounded_start(open_notional, open_price, effective_min_qty, step_size));
    let result = match crate::engine::symbol_rules::raise_to_threshold_checked(
        start,
        &step_size,
        &open_price,
        &min_value_threshold,
        max_steps,
    ) {
        Some(q) => q,
        None => return None,
    };
    let q = result.round_dp(quantity_precision);
    proof {
        let n = choose|n: nat|
            n <= max_steps && #[trigger] first_reach(start, step_size, open_price, min_value_threshold, n)
                && result == stepped_qty(start, step_size, n);
        assert(first_reach(start, step_size, open_price, min_value_threshold, n));
    }
    Some(q)
}

} // verus!
