//! Trading rules of a symbol: precisions, minimum quantity and notional, fees, and
//! how prices and quantities are rounded to them.
use vstd::prelude::*;
use crate::decimal::{
    Dec, pow10, mul_spec, div_spec, max_spec, round_dp_spec, product_in_range, quotient_in_range,
};
use crate::engine::minute_risk::{stepped_qty, below_value, reaches_within, first_reach};
use crate::engine::mock_binance_gateway::{zero, zero_dec};

verus! {

/// The rules of one symbol.
#[derive(Debug, Clone)]
pub struct SymbolRules {
    pub symbol: String,
    pub price_precision: u8,
    pub quantity_precision: u8,
    pub tick_size: Dec,
    /// The exchange's minimum quantity.
    pub min_qty: Dec,
    pub min_notional: Dec,
    pub max_notional: Dec,
    pub leverage: u32,
    pub maker_fee: Dec,
    pub taker_fee: Dec,
    /// Minimum profit ratio to close.
    pub close_min_ratio: Dec,
    /// Minimum order notional (a little above the exchange's).
    pub min_value_threshold: Dec,
    pub update_ts: i64,
}

/// The quantity step: `1 / 10^quantity_precision`.
pub open spec fn step_size_spec(precision: u8) -> Dec {
    div_spec(Dec::of_parts(1, 0), Dec::of_parts(pow10(precision as int), 0))
}

/// The first quantity of the minimum-quantity search:
/// `round(max(min_notional / tick, min_qty) / step) * step` (the notional itself without
/// a positive tick).
pub open spec fn min_qty_start(r: SymbolRules) -> Dec {
    let theoretical = if r.tick_size.val() > 0 { div_spec(r.min_notional, r.tick_size) } else { r.min_notional };
    let step = step_size_spec(r.quantity_precision);
    mul_spec(round_dp_spec(div_spec(max_spec(theoretical, r.min_qty), step), 0), step)
}

/// The minimum quantity search computes and ends.
pub open spec fn effective_min_qty_ok(r: SymbolRules) -> bool {
    let theoretical = if r.tick_size.val() > 0 { div_spec(r.min_notional, r.tick_size) } else { r.min_notional };
    let step = step_size_spec(r.quantity_precision);
    &&& r.quantity_precision <= 28
    &&& r.tick_size.val() > 0 ==> quotient_in_range(r.min_notional, r.tick_size)
    &&& quotient_in_range(max_spec(theoretical, r.min_qty), step)
    &&& product_in_range(round_dp_spec(div_spec(max_spec(theoretical, r.min_qty), step), 0), step)
    &&& exists|n: nat| reaches_within(min_qty_start(r), step, r.tick_size, r.min_notional, n)
}

/// The effective minimum quantity: the first quantity of the search raised by steps
/// until its value at the tick size reaches the minimum notional.
pub open spec fn is_effective_min_qty(r: SymbolRules, q: Dec) -> bool {
    exists|n: nat|
        #[trigger] first_reach(min_qty_start(r), step_size_spec(r.quantity_precision), r.tick_size, r.min_notional, n)
            && q == stepped_qty(min_qty_start(r), step_size_spec(r.quantity_precision), n)
}

/// Raises `start` by `step` until its value at `price` reaches `threshold`.
fn raise_to_threshold(start: Dec, step: &Dec, price: &Dec, threshold: &Dec) -> (r: Dec)
    requires
        exists|n: nat| reaches_within(start, *step, *price, *threshold, n),
    ensures
        exists|n: nat| #[trigger] first_reach(start, *step, *price, *threshold, n) && r == stepped_qty(start, *step, n),
{
    let ghost bound: nat = choose|n: nat| reaches_within(start, *step, *price, *threshold, n);
    let mut result = start;
    let ghost mut k: nat = 0;
    assert(product_in_range(stepped_qty(start, *step, 0), *price));
    while result.mul(price).lt(threshold)
        invariant
            reaches_within(start, *step, *price, *threshold, bound),
            k <= bound,
            result == stepped_qty(start, *step, k),
            forall|j: nat| j < k ==> below_value(#[trigger] stepped_qty(start, *step, j), *price, *threshold),
        decreases bound - k,
    {
        assert(product_in_range(stepped_qty(start, *step, k), *price));
        assert(k != bound);
        assert(crate::decimal::sum_in_range(stepped_qty(start, *step, k), *step, 1));
        result = result.add(step);
        proof {
            k = k + 1;
            assert(product_in_range(stepped_qty(start, *step, k), *price));
        }
    }
    assert(first_reach(start, *step, *price, *threshold, k));
    result
}

/// `raise_to_threshold` with at most `max_steps` steps and every step of the decimal
/// arithmetic checked: `None` when the threshold is not reached within the steps or a
/// step overflows, which never happens when it is reached within them without
/// overflow.
pub(crate) fn raise_to_threshold_checked(start: Dec, step: &Dec, price: &Dec, threshold: &Dec, max_steps: u64) -> (r: Option<Dec>)
    ensures
        (exists|n: nat| n <= max_steps && #[trigger] reaches_within(start, *step, *price, *threshold, n)) ==> r is Some,
        r matches Some(q) ==> exists|n: nat|
            n <= max_steps && #[trigger] first_reach(start, *step, *price, *threshold, n) && q == stepped_qty(start, *step, n),
{
    let ghost good = exists|n: nat| n <= max_steps && #[trigger] reaches_within(start, *step, *price, *threshold, n);
    let ghost bound: nat = if good {
        choose|n: nat| n <= max_steps && #[trigger] reaches_within(start, *step, *price, *threshold, n)
    } else {
        0
    };
    let mut result = start;
    let mut k: u64 = 0;
    loop
        invariant
            k <= max_steps,
            result == stepped_qty(start, *step, k as nat),
            forall|j: nat| j < k ==> below_value(#[trigger] stepped_qty(start, *step, j), *price, *threshold),
            good ==> bound <= max_steps && reaches_within(start, *step, *price, *threshold, bound) && k <= bound,
        decreases max_steps - k,
    {
        proof {
            if good {
                assert(product_in_range(stepped_qty(start, *step, k as nat), *price));
            }
        }
        let value = match result.checked_mul(price) {
            Some(v) => v,
            None => return None,
        };
        if !value.lt(threshold) {
            assert(first_reach(start, *step, *price, *threshold, k as nat));
            return Some(result);
        }
        proof {
            if good {
                assert(!below_value(stepped_qty(start, *step, bound), *price, *threshold));
                assert(k as nat != bound);
                assert(crate::decimal::sum_in_range(stepped_qty(start, *step, k as nat), *step, 1));
            }
        }
        if k == max_steps {
            return None;
        }
        result = match result.checked_add(step) {
            Some(v) => v,
            None => return None,
        };
        k = k + 1;
        assert(result == stepped_qty(start, *step, k as nat));
    }
}

/// What `calculate_open_qty_checked` needs to return a quantity: the minimum
/// quantity search, and for a positive notional and price the opening search, compute
/// and end within `max_steps` steps.
pub open spec fn open_qty_within(r: SymbolRules, notional: Dec, price: Dec, max_steps: u64) -> bool {
    let step = step_size_spec(r.quantity_precision);
    &&& effective_min_qty_ok(r)
    &&& exists|n: nat| n <= max_steps && #[trigger] reaches_within(min_qty_start(r), step, r.tick_size, r.min_notional, n)
    &&& notional.val() > 0 && price.val() > 0 ==> quotient_in_range(notional, price) && forall|m: Dec|
        is_effective_min_qty(r, m) ==> {
            &&& quotient_in_range(max_spec(div_spec(notional, price), m), step)
            &&& product_in_range(round_dp_spec(div_spec(max_spec(div_spec(notional, price), m), step), 0), step)
            &&& exists|n: nat| n <= max_steps && #[trigger] reaches_within(open_qty_start(r, notional, price, m), step, price, r.min_value_threshold, n)
        }
}

/// The opening quantity's search start: `round(max(notional / price, min_qty) / step) *
/// step`.
pub open spec fn open_qty_start(r: SymbolRules, notional: Dec, price: Dec, min_qty: Dec) -> Dec {
    let step = step_size_spec(r.quantity_precision);
    mul_spec(round_dp_spec(div_spec(max_spec(div_spec(notional, price), min_qty), step), 0), step)
}

impl SymbolRules {
    /// Default rules: prices to 2 places, quantities to 6, tick 0.01, 10x leverage,
    /// fees 0.02 % and 0.05 %, minimum notional 5 and order value 10.
    pub fn new(symbol: String) -> (r: SymbolRules)
        ensures
            r.symbol == symbol,
            r.price_precision == 2,
            r.quantity_precision == 6,
            r.tick_size == Dec::of_parts(1, 2),
            r.min_qty == Dec::of_parts(1, 6),
            r.min_notional == Dec::of_parts(50, 1),
            r.max_notional == Dec::of_parts(10000000, 1),
            r.leverage == 10,
            r.maker_fee == Dec::of_parts(2, 4),
            r.taker_fee == Dec::of_parts(5, 4),
            r.close_min_ratio == Dec::of_parts(1, 2),
            r.min_value_threshold == Dec::of_parts(100, 1),
            r.update_ts == 0,
    {
        proof {
            Dec::lemma_of_parts(1, 2);
            Dec::lemma_of_parts(1, 6);
            Dec::lemma_of_parts(50, 1);
            Dec::lemma_of_parts(10000000, 1);
            Dec::lemma_of_parts(2, 4);
            Dec::lemma_of_parts(5, 4);
            Dec::lemma_of_parts(100, 1);
        }
        let tick_size = Dec::new(1, 2);
        let min_qty = Dec::new(1, 6);
        let min_notional = Dec::new(50, 1);
        let max_notional = Dec::new(10000000, 1);
        let maker_fee = Dec::new(2, 4);
        let taker_fee = Dec::new(5, 4);
        let close_min_ratio = Dec::new(1, 2);
        let min_value_threshold = Dec::new(100, 1);
        proof {
            Dec::lemma_parts_eq(tick_size, Dec::of_parts(1, 2));
            Dec::lemma_parts_eq(min_qty, Dec::of_parts(1, 6));
            Dec::lemma_parts_eq(min_notional, Dec::of_parts(50, 1));
            Dec::lemma_parts_eq(max_notional, Dec::of_parts(10000000, 1));
            Dec::lemma_parts_eq(maker_fee, Dec::of_parts(2, 4));
            Dec::lemma_parts_eq(taker_fee, Dec::of_parts(5, 4));
            Dec::lemma_parts_eq(close_min_ratio, Dec::of_parts(1, 2));
            Dec::lemma_parts_eq(min_value_threshold, Dec::of_parts(100, 1));
        }
        SymbolRules {
            symbol,
            price_precision: 2,
            quantity_precision: 6,
            tick_size,
            min_qty,
            min_notional,
            max_notional,
            leverage: 10,
            maker_fee,
            taker_fee,
            close_min_ratio,
            min_value_threshold,
            update_ts: 0,
        }
    }

    /// The quantity step, `1 / 10^quantity_precision`.
    pub fn step_size(&self) -> (r: Dec)
        requires
            self.quantity_precision <= 28,
        ensures
            r == step_size_spec(self.quantity_precision),
    {
        let mut p: i128 = 1;
        let mut k: u8 = 0;
        while k < self.quantity_precision
            invariant
                k <= self.quantity_precision <= 28,
                p == pow10(k as int),
            decreases self.quantity_precision - k,
        {
            proof {
                crate::decimal::lemma_pow10_mul(k as int, 1);
                reveal_with_fuel(pow10, 2);
                crate::decimal::lemma_pow10_mul(k as int, 28 - k as int - 1);
                crate::decimal::lemma_pow10_pos(28 - k as int - 1);
                crate::decimal::lemma_pow10_28();
                assert(pow10(k as int) * pow10(28 - k - 1) == pow10(27));
                reveal_with_fuel(pow10, 28);
                assert(pow10(27) == 1000000000000000000000000000);
                assert(pow10(k as int) * 10 <= 10000000000000000000000000000) by (nonlinear_arith)
                    requires
                        pow10(k as int) * pow10(28 - k - 1) == 1000000000000000000000000000,
                        pow10(28 - k - 1) >= 1,
                        pow10(k as int) >= 1,
                ;
            }
            p = p * 10;
            k = k + 1;
        }
        proof {
            crate::decimal::lemma_pow10_pos(self.quantity_precision as int);
            reveal_with_fuel(pow10, 30);
            assert(pow10(28) == 10000000000000000000000000000);
            crate::decimal::lemma_pow10_mul(self.quantity_precision as int, 28 - self.quantity_precision as int);
            crate::decimal::lemma_pow10_pos(28 - self.quantity_precision as int);
            assert(p <= 10000000000000000000000000000) by (nonlinear_arith)
                requires
                    p * pow10(28 - self.quantity_precision as int) == 10000000000000000000000000000,
                    pow10(28 - self.quantity_precision as int) >= 1,
                    p >= 1,
            ;
            Dec::lemma_of_parts(1, 0);
            Dec::lemma_of_parts(p as int, 0);
        }
        let one = Dec::from_int(1);
        let tens = Dec::from_i128_with_scale(p, 0);
        proof {
            Dec::lemma_parts_eq(one, Dec::of_parts(1, 0));
            Dec::lemma_parts_eq(tens, Dec::of_parts(p as int, 0));
            assert(one.val() * pow10(28) == pow10(28) * pow10(28));
            assert(pow10(28) * pow10(28) < crate::decimal::value_limit() * tens.val()) by (nonlinear_arith)
                requires
                    tens.val() == p * pow10(28),
                    p >= 1,
                    pow10(28) == 10000000000000000000000000000,
                    crate::decimal::value_limit() == 100000000000000000000000000000000000000000000000000000000,
            ;
        }
        one.div(&tens)
    }

    /// The effective minimum quantity to open.
    pub fn effective_min_qty(&self) -> (r: Dec)
        requires
            effective_min_qty_ok(*self),
        ensures
            is_effective_min_qty(*self, r),
    {
        let theoretical_min_qty = if self.tick_size.gt(&Dec::zero()) {
            self.min_notional.div(&self.tick_size)
        } else {
            self.min_notional.copy()
        };
        let base_min_qty = theoretical_min_qty.max(&self.min_qty);
        let step_size = self.step_size();
        let rounded_min_qty = base_min_qty.div(&step_size).round().mul(&step_size);
        raise_to_threshold(rounded_min_qty, &step_size, &self.tick_size, &self.min_notional)
    }

    /// Rounds a price to whole ticks and the price precision; zero for a negative
    /// price.
    pub fn round_price(&self, price: Dec) -> (r: Dec)
        requires
            price.val() >= 0 && self.tick_size.val() > 0 ==> quotient_in_range(price, self.tick_size)
                && product_in_range(round_dp_spec(div_spec(price, self.tick_size), 0), self.tick_size),
        ensures
            price.val() < 0 ==> r == zero_dec(),
            price.val() >= 0 && self.tick_size.val() > 0 ==> r == round_dp_spec(
                mul_spec(round_dp_spec(div_spec(price, self.tick_size), 0), self.tick_size),
                self.price_precision as int,
            ),
            price.val() >= 0 && self.tick_size.val() <= 0 ==> r == round_dp_spec(price, self.price_precision as int),
    {
        if price.lt(&Dec::zero()) {
            return zero();
        }
        if self.tick_size.gt(&Dec::zero()) {
            let rounded = price.div(&self.tick_size).round().mul(&self.tick_size);
            rounded.round_dp(self.price_precision as u32)
        } else {
            price.round_dp(self.price_precision as u32)
        }
    }

    /// Rounds a quantity to the quantity precision, not below the effective minimum;
    /// zero for a negative quantity.
    pub fn round_qty(&self, qty: Dec) -> (r: Dec)
        requires
            qty.val() >= 0 ==> effective_min_qty_ok(*self),
        ensures
            qty.val() < 0 ==> r == zero_dec(),
            qty.val() >= 0 ==> exists|m: Dec|
                is_effective_min_qty(*self, m) && r == round_dp_spec(max_spec(qty, m), self.quantity_precision as int),
    {
        if qty.lt(&Dec::zero()) {
            return zero();
        }
        let m = self.effective_min_qty();
        let valid_qty = qty.max(&m);
        valid_qty.round_dp(self.quantity_precision as u32)
    }

    /// An order is valid when neither price nor quantity is negative, the quantity
    /// reaches the exchange's minimum quantity and the notional the minimum order
    /// value.
    pub fn validate_order(&self, price: Dec, qty: Dec) -> (r: bool)
        requires
            price.val() >= 0 && qty.val() >= 0 ==> product_in_range(price, qty),
        ensures
            price.val() < 0 || qty.val() < 0 ==> !r,
            price.val() >= 0 && qty.val() >= 0 ==> r == (qty.val() >= self.min_qty.val() && mul_spec(price, qty).val()
                >= self.min_value_threshold.val()),
    {
        if price.lt(&Dec::zero()) || qty.lt(&Dec::zero()) {
            return false;
        }
        let order_notional = price.mul(&qty);
        qty.ge(&self.min_qty) && order_notional.ge(&self.min_value_threshold)
    }

    /// The quantity to open for `open_notional` at `open_price`: at least the effective
    /// minimum, rounded to whole steps, raised step by step until its value reaches the
    /// minimum order value, rounded to the quantity precision.  Without a positive
    /// notional or price, the effective minimum.
    pub fn calculate_open_qty(&self, open_notional: Dec, open_price: Dec) -> (r: Dec)
        requires
            effective_min_qty_ok(*self),
            open_notional.val() > 0 && open_price.val() > 0 ==> quotient_in_range(open_notional, open_price)
                && forall|m: Dec|
                is_effective_min_qty(*self, m) ==> {
                    let step = step_size_spec(self.quantity_precision);
                    let start = open_qty_start(*self, open_notional, open_price, m);
                    &&& quotient_in_range(max_spec(div_spec(open_notional, open_price), m), step)
                    &&& product_in_range(round_dp_spec(div_spec(max_spec(div_spec(open_notional, open_price), m), step), 0), step)
                    &&& exists|n: nat| reaches_within(start, step, open_price, self.min_value_threshold, n)
                },
        ensures
            open_notional.val() <= 0 || open_price.val() <= 0 ==> is_effective_min_qty(*self, r),
            open_notional.val() > 0 && open_price.val() > 0 ==> exists|m: Dec, n: nat|
                is_effective_min_qty(*self, m) && #[trigger] first_reach(
                    open_qty_start(*self, open_notional, open_price, m),
                    step_size_spec(self.quantity_precision),
                    open_price,
                    self.min_value_threshold,
                    n,
                ) && r == round_dp_spec(
                    stepped_qty(open_qty_start(*self, open_notional, open_price, m), step_size_spec(self.quantity_precision), n),
                    self.quantity_precision as int,
                ),
    {
        if open_notional.le(&Dec::zero()) || open_price.le(&Dec::zero()) {
            return self.effective_min_qty();
        }
        let base_qty = open_notional.div(&open_price);
        let m = self.effective_min_qty();
        let valid_qty = base_qty.max(&m);
        let step_size = self.step_size();
        let rounded_qty = valid_qty.div(&step_size).round().mul(&step_size);
        let result = raise_to_threshold(rounded_qty, &step_size, &open_price, &self.min_value_threshold);
        result.round_dp(self.quantity_precision as u32)
    }

    /// `effective_min_qty` for any rules, with at most `max_steps` steps of the search:
    /// `None` for a precision above 28, a step of the decimal arithmetic that
    /// overflows, or a search that needs more steps.
    pub fn effective_min_qty_checked(&self, max_steps: u64) -> (r: Option<Dec>)
        ensures
            effective_min_qty_ok(*self) && (exists|n: nat|
                n <= max_steps && #[trigger] reaches_within(
                    min_qty_start(*self),
                    step_size_spec(self.quantity_precision),
                    self.tick_size,
                    self.min_notional,
                    n,
                )) ==> r is Some,
            r matches Some(q) ==> is_effective_min_qty(*self, q),
            r is Some ==> self.quantity_precision <= 28,
    {
        if self.quantity_precision > 28 {
            return None;
        }
        let theoretical_min_qty = if self.tick_size.gt(&Dec::zero()) {
            match self.min_notional.checked_div(&self.tick_size) {
                Some(x) => x,
                None => return None,
            }
        } else {
            self.min_notional.copy()
        };
        let base_min_qty = theoretical_min_qty.max(&self.min_qty);
        let step_size = self.step_size();
        let steps = match base_min_qty.checked_div(&step_size) {
            Some(x) => x,
            None => return None,
        };
        let start = match steps.round().checked_mul(&step_size) {
            Some(x) => x,
            None => return None,
        };
        assert(start == min_qty_start(*self));
        match raise_to_threshold_checked(start, &step_size, &self.tick_size, &self.min_notional, max_steps) {
            Some(q) => {
                proof {
                    let n = choose|n: nat|
                        n <= max_steps && #[trigger] first_reach(start, step_size, self.tick_size, self.min_notional, n)
                            && q == stepped_qty(start, step_size, n);
                    assert(first_reach(min_qty_start(*self), step_size_spec(self.quantity_precision), self.tick_size, self.min_notional, n));
                }
                Some(q)
            },
            None => None,
        }
    }

    /// `calculate_open_qty` for any input, with at most `max_steps` steps in each
    /// search: `None` for a precision above 28, a step of the decimal arithmetic that
    /// overflows, or a search that needs more steps.
    pub fn calculate_open_qty_checked(&self, open_notional: Dec, open_price: Dec, max_steps: u64) -> (r: Option<Dec>)
        ensures
            open_qty_within(*self, open_notional, open_price, max_steps) ==> r is Some,
            r matches Some(q) ==> ((open_notional.val() <= 0 || open_price.val() <= 0) ==> is_effective_min_qty(*self, q)),
            r matches Some(q) ==> (open_notional.val() > 0 && open_price.val() > 0 ==> exists|m: Dec, n: nat|
                is_effective_min_qty(*self, m) && #[trigger] first_reach(
                    open_qty_start(*self, open_notional, open_price, m),
                    step_size_spec(self.quantity_precision),
                    open_price,
                    self.min_value_threshold,
                    n,
                ) && q == round_dp_spec(
                    stepped_qty(open_qty_start(*self, open_notional, open_price, m), step_size_spec(self.quantity_precision), n),
                    self.quantity_precision as int,
                )),
    {
        let m = match self.effective_min_qty_checked(max_steps) {
            Some(m) => m,
            None => return None,
        };
        if open_notional.le(&Dec::zero()) || open_price.le(&Dec::zero()) {
            return Some(m);
        }
        let base_qty = match open_notional.checked_div(&open_price) {
            Some(x) => x,
            None => return None,
        };
        let valid_qty = base_qty.max(&m);
        let step_size = self.step_size();
        let steps = match valid_qty.checked_div(&step_size) {
            Some(x) => x,
            None => return None,
        };
        let start = match steps.round().checked_mul(&step_size) {
            Some(x) => x,
            None => return None,
        };
        assert(start == open_qty_start(*self, open_notional, open_price, m));
        let result = match raise_to_threshold_checked(
            start,
            &step_size,
            &open_price,
            &self.min_value_threshold,
            max_steps,
        ) {
            Some(q) => q,
            None => return None,
        };
        let q = result.round_dp(self.quantity_precision as u32);
        proof {
            let n = choose|n: nat|
                n <= max_steps && #[trigger] first_reach(start, step_size, open_price, self.min_value_threshold, n)
                    && result == stepped_qty(start, step_size, n);
            assert(first_reach(
                open_qty_start(*self, open_notional, open_price, m),
                step_size_spec(self.quantity_precision),
                open_price,
                self.min_value_threshold,
                n,
            ));
        }
        Some(q)
    }
}

} // verus!
