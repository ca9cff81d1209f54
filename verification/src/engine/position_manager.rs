//! The local position of one symbol: opening, adding, reversing and closing, with
//! realized and unrealized profit.
use vstd::prelude::*;
use crate::decimal::{exact_sum, lemma_add_exact, lemma_sub_exact};
use crate::decimal::{
    Dec, add_spec, sub_spec, mul_spec, div_spec, min_spec, sum_in_range, product_in_range, quotient_in_range,
};

verus! {

/// Position direction.
#[derive(Debug, Clone, Copy, PartialEq, Eq, Structural)]
pub enum Direction {
    Long,
    Short,
}

impl Default for Direction {
    fn default() -> (r: Direction)
        ensures
            r == Direction::Long,
    {
        Direction::Long
    }
}

/// A position: direction, quantity, average price, open time and costs.
#[derive(Debug, Clone)]
pub struct LocalPosition {
    pub direction: Direction,
    pub qty: Dec,
    pub avg_price: Dec,
    pub open_time: i64,
    pub position_cost: Dec,
}

impl LocalPosition {
    /// No position (long, zero quantity).
    pub fn empty() -> (r: LocalPosition)
        ensures
            r.direction == Direction::Long,
            r.qty == Dec::of_parts(0, 0),
            r.avg_price == Dec::of_parts(0, 0),
            r.open_time == 0,
            r.position_cost == Dec::of_parts(0, 0),
    {
        LocalPosition {
            direction: Direction::Long,
            qty: Dec::zero(),
            avg_price: Dec::zero(),
            open_time: 0,
            position_cost: Dec::zero(),
        }
    }
}

impl Default for LocalPosition {
    /// No position (long, zero quantity).
    fn default() -> (r: LocalPosition)
        ensures
            r.direction == Direction::Long,
            r.qty == Dec::of_parts(0, 0),
            r.avg_price == Dec::of_parts(0, 0),
            r.open_time == 0,
            r.position_cost == Dec::of_parts(0, 0),
    {
        LocalPosition::empty()
    }
}

/// Trade statistics of a position.
#[derive(Debug, Clone)]
pub struct PositionStats {
    pub trade_count: u64,
    pub total_realized_pnl: Dec,
    pub max_qty: Dec,
    pub holding_time_secs: i64,
}

impl PositionStats {
    pub fn empty() -> (r: PositionStats)
        ensures
            r.trade_count == 0,
            r.total_realized_pnl == Dec::of_parts(0, 0),
            r.max_qty == Dec::of_parts(0, 0),
            r.holding_time_secs == 0,
    {
        PositionStats { trade_count: 0, total_realized_pnl: Dec::zero(), max_qty: Dec::zero(), holding_time_secs: 0 }
    }
}

impl Default for PositionStats {
    /// No trades.
    fn default() -> (r: PositionStats)
        ensures
            r.trade_count == 0,
            r.total_realized_pnl == Dec::of_parts(0, 0),
            r.max_qty == Dec::of_parts(0, 0),
            r.holding_time_secs == 0,
    {
        PositionStats::empty()
    }
}

/// The position after opening `qty` at `price` in direction `dir` at `ts`: nothing
/// for a non-positive quantity or price; a new position when flat; the weighted
/// average price when adding; against the position, the quantity is netted and a
/// reversal takes the new direction, price and time.
pub open spec fn opened(p: LocalPosition, dir: Direction, qty: Dec, price: Dec, ts: i64) -> LocalPosition {
    if qty.val() <= 0 || price.val() <= 0 {
        p
    } else if p.qty.val() <= 0 {
        LocalPosition { direction: dir, qty: qty, avg_price: price, open_time: ts, ..p }
    } else if p.direction == dir {
        let total_value = add_spec(mul_spec(p.qty, p.avg_price), mul_spec(qty, price));
        let total_qty = add_spec(p.qty, qty);
        LocalPosition { avg_price: div_spec(total_value, total_qty), qty: total_qty, ..p }
    } else if qty.val() >= p.qty.val() {
        LocalPosition { qty: sub_spec(qty, p.qty), direction: dir, avg_price: price, open_time: ts, ..p }
    } else {
        LocalPosition { qty: sub_spec(p.qty, qty), ..p }
    }
}

/// Opening computes without overflow.
pub open spec fn open_ok(p: LocalPosition, dir: Direction, qty: Dec, price: Dec) -> bool {
    qty.val() > 0 && price.val() > 0 && p.qty.val() > 0 ==> {
        &&& p.direction == dir ==> {
            &&& product_in_range(p.qty, p.avg_price)
            &&& product_in_range(qty, price)
            &&& sum_in_range(mul_spec(p.qty, p.avg_price), mul_spec(qty, price), 1)
            &&& sum_in_range(p.qty, qty, 1)
            &&& quotient_in_range(
                add_spec(mul_spec(p.qty, p.avg_price), mul_spec(qty, price)),
                add_spec(p.qty, qty),
            )
        }
        &&& p.direction != dir ==> sum_in_range(qty, p.qty, -1)
    }
}

/// The profit of closing `qty` at `price`: `(price - avg) * qty` long, the opposite
/// short.
pub open spec fn close_pnl(p: LocalPosition, qty: Dec, price: Dec) -> Dec {
    match p.direction {
        Direction::Long => mul_spec(sub_spec(price, p.avg_price), qty),
        Direction::Short => mul_spec(sub_spec(p.avg_price, price), qty),
    }
}

/// The position after closing `qty`: flat (zero price) when at least the whole
/// quantity closes, else the quantity drops.
pub open spec fn closed(p: LocalPosition, qty: Dec) -> LocalPosition {
    if qty.val() >= p.qty.val() {
        LocalPosition { qty: Dec::of_parts(0, 0), avg_price: Dec::of_parts(0, 0), ..p }
    } else {
        LocalPosition { qty: sub_spec(p.qty, qty), ..p }
    }
}

/// Closing computes without overflow.
pub open spec fn close_ok(p: LocalPosition, qty: Dec, price: Dec) -> bool {
    p.qty.val() > 0 && qty.val() > 0 ==> {
        &&& p.direction == Direction::Long ==> sum_in_range(price, p.avg_price, -1) && product_in_range(
            sub_spec(price, p.avg_price),
            qty,
        )
        &&& p.direction == Direction::Short ==> sum_in_range(p.avg_price, price, -1) && product_in_range(
            sub_spec(p.avg_price, price),
            qty,
        )
        &&& qty.val() < p.qty.val() ==> sum_in_range(p.qty, qty, -1)
    }
}

/// Keeps the position of one symbol.
pub struct LocalPositionManager {
    pub position: LocalPosition,
    pub stats: PositionStats,
}

impl LocalPositionManager {
    pub fn new() -> (r: LocalPositionManager)
        ensures
            r.position.qty == Dec::of_parts(0, 0),
            r.position.direction == Direction::Long,
            r.stats.trade_count == 0,
            r.stats.total_realized_pnl == Dec::of_parts(0, 0),
    {
        LocalPositionManager { position: LocalPosition::empty(), stats: PositionStats::empty() }
    }

    /// Opens or adds to the position (see `opened`); a trade is counted when the
    /// quantity and price are positive.
    pub fn open_position(&mut self, direction: Direction, qty: Dec, price: Dec, timestamp: i64)
        requires
            open_ok(old(self).position, direction, qty, price),
            old(self).stats.trade_count < u64::MAX,
        ensures
            final(self).position == opened(old(self).position, direction, qty, price, timestamp),
            final(self).stats.trade_count == if qty.val() > 0 && price.val() > 0 {
                old(self).stats.trade_count + 1
            } else {
                old(self).stats.trade_count as int
            },
            final(self).stats.total_realized_pnl == old(self).stats.total_realized_pnl,
    {
        if qty.le(&Dec::zero()) || price.le(&Dec::zero()) {
            return;
        }
        if self.position.qty.le(&Dec::zero()) {
            self.position.direction = direction;
            self.position.qty = qty;
            self.position.avg_price = price;
            self.position.open_time = timestamp;
        } else if self.position.direction == direction {
            let total_value = self.position.qty.mul(&self.position.avg_price).add(&qty.mul(&price));
            let total_qty = self.position.qty.add(&qty);
            self.position.avg_price = total_value.div(&total_qty);
            self.position.qty = total_qty;
        } else {
            if qty.ge(&self.position.qty) {
                let remaining_qty = qty.sub(&self.position.qty);
                self.position.qty = remaining_qty;
                self.position.direction = direction;
                self.position.avg_price = price;
                self.position.open_time = timestamp;
            } else {
                self.position.qty = self.position.qty.sub(&qty);
            }
        }
        self.stats.trade_count = self.stats.trade_count + 1;
    }

    /// Closes `qty` at `price` and returns the realized profit; nothing happens (zero
    /// profit) without a position or with a non-positive quantity.
    pub fn close_position(&mut self, qty: Dec, price: Dec) -> (r: Dec)
        requires
            close_ok(old(self).position, qty, price),
            old(self).position.qty.val() > 0 && qty.val() > 0 ==> old(self).stats.trade_count < u64::MAX
                && sum_in_range(old(self).stats.total_realized_pnl, close_pnl(old(self).position, qty, price), 1),
        ensures
            old(self).position.qty.val() <= 0 || qty.val() <= 0 ==> r == Dec::of_parts(0, 0) && *final(self)
                == *old(self),
            old(self).position.qty.val() > 0 && qty.val() > 0 ==> {
                &&& r == close_pnl(old(self).position, qty, price)
                &&& final(self).position == closed(old(self).position, qty)
                &&& final(self).stats.trade_count == old(self).stats.trade_count + 1
                &&& final(self).stats.total_realized_pnl == add_spec(old(self).stats.total_realized_pnl, r)
            },
    {
        proof {
            Dec::lemma_of_parts(0, 0);
        }
        if self.position.qty.le(&Dec::zero()) || qty.le(&Dec::zero()) {
            let z = Dec::zero();
            proof {
                Dec::lemma_parts_eq(z, Dec::of_parts(0, 0));
            }
            return z;
        }
        let pnl = match self.position.direction {
            Direction::Long => price.sub(&self.position.avg_price).mul(&qty),
            Direction::Short => self.position.avg_price.sub(&price).mul(&qty),
        };
        if qty.ge(&self.position.qty) {
            let z1 = Dec::zero();
            let z2 = Dec::zero();
            proof {
                Dec::lemma_parts_eq(z1, Dec::of_parts(0, 0));
                Dec::lemma_parts_eq(z2, Dec::of_parts(0, 0));
            }
            self.position.qty = z1;
            self.position.avg_price = z2;
        } else {
            self.position.qty = self.position.qty.sub(&qty);
        }
        self.stats.trade_count = self.stats.trade_count + 1;
        self.stats.total_realized_pnl = self.stats.total_realized_pnl.add(&pnl);
        pnl
    }

    /// Closes the whole position at `price`.
    pub fn close_all(&mut self, price: Dec) -> (r: Dec)
        requires
            close_ok(old(self).position, old(self).position.qty, price),
            old(self).position.qty.val() > 0 ==> old(self).stats.trade_count < u64::MAX && sum_in_range(
                old(self).stats.total_realized_pnl,
                close_pnl(old(self).position, old(self).position.qty, price),
                1,
            ),
        ensures
            old(self).position.qty.val() <= 0 ==> r == Dec::of_parts(0, 0) && *final(self) == *old(self),
            old(self).position.qty.val() > 0 ==> {
                &&& r == close_pnl(old(self).position, old(self).position.qty, price)
                &&& final(self).position == closed(old(self).position, old(self).position.qty)
                &&& final(self).stats.trade_count == old(self).stats.trade_count + 1
            },
    {
        let qty = self.position.qty.copy();
        self.close_position(qty, price)
    }

    /// Books a fill: against the position, the overlap is closed first and the rest
    /// opened in the new direction; otherwise the fill opens or adds.
    pub fn update_on_fill(&mut self, direction: Direction, qty: Dec, price: Dec, timestamp: i64)
        requires
            ({
                let p = old(self).position;
                let s = old(self).stats;
                if p.qty.val() > 0 && p.direction != direction {
                    let c = min_spec(qty, p.qty);
                    let rest = sub_spec(qty, c);
                    let after = if c.val() > 0 { closed(p, c) } else { p };
                    &&& c.val() > 0 ==> close_ok(p, c, price) && s.trade_count < u64::MAX && sum_in_range(
                        s.total_realized_pnl,
                        close_pnl(p, c, price),
                        1,
                    )
                    &&& sum_in_range(qty, c, -1)
                    &&& rest.val() > 0 ==> open_ok(after, direction, rest, price) && s.trade_count + 2 <= u64::MAX
                } else {
                    open_ok(p, direction, qty, price) && s.trade_count < u64::MAX
                }
            }),
        ensures
            ({
                let p = old(self).position;
                if p.qty.val() > 0 && p.direction != direction {
                    let c = min_spec(qty, p.qty);
                    let rest = sub_spec(qty, c);
                    let after = if c.val() > 0 { closed(p, c) } else { p };
                    final(self).position == if rest.val() > 0 {
                        opened(after, direction, rest, price, timestamp)
                    } else {
                        after
                    }
                } else {
                    final(self).position == opened(p, direction, qty, price, timestamp)
                }
            }),
    {
        if self.position.qty.gt(&Dec::zero()) && self.position.direction != direction {
            let close_qty = qty.min(&self.position.qty);
            if close_qty.gt(&Dec::zero()) {
                self.close_position(close_qty.copy(), price.copy());
            }
            let remaining_qty = qty.sub(&close_qty);
            if remaining_qty.gt(&Dec::zero()) {
                self.open_position(direction, remaining_qty, price, timestamp);
            }
        } else {
            self.open_position(direction, qty, price, timestamp);
        }
    }

    pub fn get_position(&self) -> (r: &LocalPosition)
        ensures
            *r == self.position,
    {
        &self.position
    }

    pub fn qty(&self) -> (r: Dec)
        ensures
            r == self.position.qty,
    {
        self.position.qty.copy()
    }

    pub fn direction(&self) -> (r: Direction)
        ensures
            r == self.position.direction,
    {
        self.position.direction
    }

    pub fn avg_price(&self) -> (r: Dec)
        ensures
            r == self.position.avg_price,
    {
        self.position.avg_price.copy()
    }

    pub fn has_position(&self) -> (r: bool)
        ensures
            r == (self.position.qty.val() > 0),
    {
        self.position.qty.gt(&Dec::zero())
    }

    /// The profit of the open position at `current_price`; zero without a position or
    /// a positive price.
    pub fn unrealized_pnl(&self, current_price: Dec) -> (r: Dec)
        requires
            self.position.qty.val() > 0 && current_price.val() > 0 ==> close_ok(
                self.position,
                self.position.qty,
                current_price,
            ),
        ensures
            self.position.qty.val() <= 0 || current_price.val() <= 0 ==> r == Dec::of_parts(0, 0),
            self.position.qty.val() > 0 && current_price.val() > 0 ==> r == close_pnl(
                self.position,
                self.position.qty,
                current_price,
            ),
    {
        if self.position.qty.le(&Dec::zero()) || current_price.le(&Dec::zero()) {
            proof {
                Dec::lemma_of_parts(0, 0);
            }
            let z = Dec::zero();
            proof {
                Dec::lemma_parts_eq(z, Dec::of_parts(0, 0));
            }
            return z;
        }
        match self.position.direction {
            Direction::Long => current_price.sub(&self.position.avg_price).mul(&self.position.qty),
            Direction::Short => self.position.avg_price.sub(&current_price).mul(&self.position.qty),
        }
    }

    /// `qty * price`.
    pub fn notional_value(&self, price: Dec) -> (r: Dec)
        requires
            product_in_range(self.position.qty, price),
        ensures
            r == mul_spec(self.position.qty, price),
    {
        self.position.qty.mul(&price)
    }

    pub fn stats(&self) -> (r: &PositionStats)
        ensures
            *r == self.stats,
    {
        &self.stats
    }

    /// Back to no position and empty statistics.
    pub fn reset(&mut self)
        ensures
            final(self).position.qty == Dec::of_parts(0, 0),
            final(self).position.direction == Direction::Long,
            final(self).stats.trade_count == 0,
            final(self).stats.total_realized_pnl == Dec::of_parts(0, 0),
    {
        self.position = LocalPosition::empty();
        self.stats = PositionStats::empty();
    }
}

impl Default for LocalPositionManager {
    fn default() -> (r: LocalPositionManager)
        ensures
            r.position.qty == Dec::of_parts(0, 0),
            r.stats.trade_count == 0,
    {
        LocalPositionManager::new()
    }
}

/// Closing at least the whole quantity leaves no position, and the profit is the
/// price move times the closed quantity in the position's direction.
pub proof fn lemma_close_all_flattens(p: LocalPosition, qty: Dec, price: Dec)
    requires
        qty.val() >= p.qty.val(),
    ensures
        closed(p, qty).qty.val() == 0,
        closed(p, qty).direction == p.direction,
{
    Dec::lemma_of_parts(0, 0);
}

/// A position's quantity signed by its direction: positive long, negative short.
pub open spec fn signed_qty(p: LocalPosition) -> int {
    match p.direction {
        Direction::Long => p.qty.val(),
        Direction::Short => -p.qty.val(),
    }
}

/// A fill's quantity signed by its direction.
pub open spec fn signed_fill(dir: Direction, qty: Dec) -> int {
    match dir {
        Direction::Long => qty.val(),
        Direction::Short => -qty.val(),
    }
}

/// Opening nets quantities: the signed quantity after an open is the signed quantity
/// before plus the signed fill, so a fill against the position first closes it and
/// only the rest opens in the new direction; the quantity stays non-negative, and a
/// remaining position lies in the direction of the net sign.  Stated where the
/// quantities add and subtract without rounding.
pub proof fn lemma_open_nets_quantity(p: LocalPosition, dir: Direction, qty: Dec, price: Dec, ts: i64)
    requires
        p.qty.wf(),
        qty.wf(),
        p.qty.val() >= 0,
        qty.val() > 0,
        price.val() > 0,
        p.qty.val() > 0 && p.direction == dir ==> exact_sum(p.qty, qty, 1),
        p.qty.val() > 0 && p.direction != dir && qty.val() >= p.qty.val() ==> exact_sum(qty, p.qty, -1),
        p.qty.val() > 0 && p.direction != dir && qty.val() < p.qty.val() ==> exact_sum(p.qty, qty, -1),
    ensures
        signed_qty(opened(p, dir, qty, price, ts)) == signed_qty(p) + signed_fill(dir, qty),
        opened(p, dir, qty, price, ts).qty.val() >= 0,
        signed_qty(p) + signed_fill(dir, qty) > 0 ==> opened(p, dir, qty, price, ts).direction == Direction::Long,
        signed_qty(p) + signed_fill(dir, qty) < 0 ==> opened(p, dir, qty, price, ts).direction == Direction::Short,
{
    if p.qty.val() > 0 {
        if p.direction == dir {
            lemma_add_exact(p.qty, qty);
        } else if qty.val() >= p.qty.val() {
            lemma_sub_exact(qty, p.qty);
        } else {
            lemma_sub_exact(p.qty, qty);
        }
    }
}

/// Adding in the position's direction keeps the average at the total value over the
/// total quantity: the new average times the new quantity is the old value plus the
/// fill's value, so the average lies between the old average and the fill price; a
/// fill against the position that reverses it opens at the fill price, and one that
/// only reduces it keeps the average.  Stated where no step rounds.
pub proof fn lemma_open_average(p: LocalPosition, dir: Direction, qty: Dec, price: Dec, ts: i64)
    requires
        p.qty.wf(),
        p.avg_price.wf(),
        qty.wf(),
        price.wf(),
        p.qty.val() > 0,
        qty.val() > 0,
        price.val() > 0,
        p.direction == dir ==> crate::engine::mock_binance_gateway::fill_exact(p.qty, p.avg_price, qty, price),
    ensures
        p.direction == dir ==> opened(p, dir, qty, price, ts).avg_price.val() * opened(p, dir, qty, price, ts).qty.val()
            == p.qty.val() * p.avg_price.val() + qty.val() * price.val(),
        p.direction == dir && p.avg_price.val() <= price.val() ==> p.avg_price.val() <= opened(
            p,
            dir,
            qty,
            price,
            ts,
        ).avg_price.val() <= price.val(),
        p.direction == dir && price.val() <= p.avg_price.val() ==> price.val() <= opened(
            p,
            dir,
            qty,
            price,
            ts,
        ).avg_price.val() <= p.avg_price.val(),
        p.direction != dir && qty.val() >= p.qty.val() ==> opened(p, dir, qty, price, ts).avg_price == price,
        p.direction != dir && qty.val() < p.qty.val() ==> opened(p, dir, qty, price, ts).avg_price == p.avg_price,
{
    if p.direction == dir {
        crate::engine::mock_binance_gateway::lemma_leg_average(p.qty, p.avg_price, qty, price);
    }
}

/// Opening on a flat position takes the fill as it is: its direction, quantity,
/// price and time.
pub proof fn lemma_open_on_flat(p: LocalPosition, dir: Direction, qty: Dec, price: Dec, ts: i64)
    requires
        p.qty.val() <= 0,
        qty.val() > 0,
        price.val() > 0,
    ensures
        opened(p, dir, qty, price, ts).direction == dir,
        opened(p, dir, qty, price, ts).qty == qty,
        opened(p, dir, qty, price, ts).avg_price == price,
        opened(p, dir, qty, price, ts).open_time == ts,
{
}

} // verus!
