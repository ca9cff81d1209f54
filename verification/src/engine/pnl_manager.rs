//! Realized and unrealized profit, and the rules between low- and high-volatility
//! symbols: mutual exclusion and rescue.
use vstd::prelude::*;
use crate::decimal::{
    Dec, add_spec, sub_spec, mul_spec, div_spec, abs_spec, min_spec, neg_spec, sum_in_range, product_in_range,
    quotient_in_range,
};
use crate::keyed::{
    keys_unique, to_map, find_key, name_seq, find_name, insert_name, remove_name, lemma_to_map_index,
    lemma_to_map_dom, lemma_to_map_update, lemma_to_map_push,
};
use crate::text::str_eq;

verus! {

/// The profit of a side: `(exit - entry) * qty` for "long", the opposite for
/// "short", zero for anything else.
pub open spec fn side_pnl(side: Seq<char>, qty: Dec, entry: Dec, exit: Dec) -> Dec {
    if side == "long"@ {
        mul_spec(sub_spec(exit, entry), qty)
    } else if side == "short"@ {
        mul_spec(sub_spec(entry, exit), qty)
    } else {
        Dec::of_parts(0, 0)
    }
}

/// The side's profit computes without overflow.
pub open spec fn side_pnl_ok(side: Seq<char>, qty: Dec, entry: Dec, exit: Dec) -> bool {
    &&& side == "long"@ ==> sum_in_range(exit, entry, -1) && product_in_range(sub_spec(exit, entry), qty)
    &&& side == "short"@ ==> sum_in_range(entry, exit, -1) && product_in_range(sub_spec(entry, exit), qty)
}

/// The unrealized profit recorded for a symbol, zero when none is.
pub open spec fn pnl_of(m: Map<Seq<char>, Dec>, k: Seq<char>) -> Dec {
    if m.dom().contains(k) { m[k] } else { Dec::of_parts(0, 0) }
}

/// The sum of the values, added in order from zero.
pub open spec fn sum_values(s: Seq<(String, Dec)>) -> Dec
    decreases s.len(),
{
    if s.len() == 0 {
        Dec::of_parts(0, 0)
    } else {
        add_spec(sum_values(s.drop_last()), s.last().1)
    }
}

/// Every partial sum stays in range.
pub open spec fn sum_values_ok(s: Seq<(String, Dec)>) -> bool {
    forall|k: int| 0 <= k < s.len() ==> sum_in_range(#[trigger] sum_values(s.take(k)), s[k].1, 1)
}

/// Profit bookkeeping.
#[derive(Debug, Clone)]
pub struct PnlManager {
    pub cumulative_profit: Dec,
    pub realized_profit: Dec,
    pub unrealized_pnl: Vec<(String, Dec)>,
    pub low_volatility_symbols: Vec<String>,
    pub high_volatility_symbols: Vec<String>,
    pub last_update_ts: i64,
}

impl PnlManager {
    /// One value per symbol; each volatility set holds a symbol once.
    pub open spec fn wf(self) -> bool {
        &&& keys_unique(self.unrealized_pnl@)
        &&& name_seq(self.low_volatility_symbols@).no_duplicates()
        &&& name_seq(self.high_volatility_symbols@).no_duplicates()
    }

    /// Unrealized profit per symbol.
    pub open spec fn pnl_map(self) -> Map<Seq<char>, Dec> {
        to_map(self.unrealized_pnl@)
    }

    pub open spec fn is_low_spec(self, s: Seq<char>) -> bool {
        name_seq(self.low_volatility_symbols@).contains(s)
    }

    pub open spec fn is_high_spec(self, s: Seq<char>) -> bool {
        name_seq(self.high_volatility_symbols@).contains(s)
    }

    pub fn new() -> (r: PnlManager)
        ensures
            r.wf(),
            r.cumulative_profit == Dec::of_parts(0, 0),
            r.realized_profit == Dec::of_parts(0, 0),
            r.pnl_map() == Map::<Seq<char>, Dec>::empty(),
            r.low_volatility_symbols@.len() == 0,
            r.high_volatility_symbols@.len() == 0,
            r.last_update_ts == 0,
    {
        let r = PnlManager {
            cumulative_profit: Dec::zero(),
            realized_profit: Dec::zero(),
            unrealized_pnl: Vec::new(),
            low_volatility_symbols: Vec::new(),
            high_volatility_symbols: Vec::new(),
            last_update_ts: 0,
        };
        proof {
            assert(name_seq(r.low_volatility_symbols@) =~= Seq::<Seq<char>>::empty());
            assert(name_seq(r.high_volatility_symbols@) =~= Seq::<Seq<char>>::empty());
        }
        r
    }

    fn side_profit(side: &str, qty: Dec, entry: Dec, exit: Dec) -> (r: Dec)
        requires
            side_pnl_ok(side@, qty, entry, exit),
        ensures
            r == side_pnl(side@, qty, entry, exit),
    {
        if str_eq(side, "long") {
            exit.sub(&entry).mul(&qty)
        } else if str_eq(side, "short") {
            entry.sub(&exit).mul(&qty)
        } else {
            proof {
                Dec::lemma_of_parts(0, 0);
            }
            let z = Dec::zero();
            proof {
                Dec::lemma_parts_eq(z, Dec::of_parts(0, 0));
            }
            z
        }
    }

    /// The realized profit of closing `qty` entered at `avg_entry_price` at
    /// `exit_price`, for side "long" or "short" (zero for another side).
    pub fn calculate_realized_pnl(&self, side: &str, qty: Dec, avg_entry_price: Dec, exit_price: Dec) -> (r: Dec)
        requires
            side_pnl_ok(side@, qty, avg_entry_price, exit_price),
        ensures
            r == side_pnl(side@, qty, avg_entry_price, exit_price),
    {
        PnlManager::side_profit(side, qty, avg_entry_price, exit_price)
    }

    /// The unrealized profit at `current_price`, as `calculate_realized_pnl`.
    pub fn calculate_unrealized_pnl(&self, side: &str, qty: Dec, avg_entry_price: Dec, current_price: Dec) -> (r: Dec)
        requires
            side_pnl_ok(side@, qty, avg_entry_price, current_price),
        ensures
            r == side_pnl(side@, qty, avg_entry_price, current_price),
    {
        PnlManager::side_profit(side, qty, avg_entry_price, current_price)
    }

    /// Adds a profit (or a loss) to the cumulative profit.
    pub fn update_cumulative_profit(&mut self, pnl: Dec)
        requires
            sum_in_range(old(self).cumulative_profit, pnl, 1),
        ensures
            final(self).cumulative_profit == add_spec(old(self).cumulative_profit, pnl),
            final(self).realized_profit == old(self).realized_profit,
            final(self).unrealized_pnl == old(self).unrealized_pnl,
            final(self).low_volatility_symbols == old(self).low_volatility_symbols,
            final(self).high_volatility_symbols == old(self).high_volatility_symbols,
    {
        self.cumulative_profit = self.cumulative_profit.add(&pnl);
    }

    pub fn get_cumulative_profit(&self) -> (r: Dec)
        ensures
            r == self.cumulative_profit,
    {
        self.cumulative_profit.copy()
    }

    pub fn get_realized_profit(&self) -> (r: Dec)
        ensures
            r == self.realized_profit,
    {
        self.realized_profit.copy()
    }

    /// Records the unrealized profit of a symbol.
    pub fn update_unrealized_pnl(&mut self, symbol: &str, pnl: Dec)
        requires
            old(self).wf(),
        ensures
            final(self).wf(),
            final(self).pnl_map() == old(self).pnl_map().insert(symbol@, pnl),
            final(self).low_volatility_symbols == old(self).low_volatility_symbols,
            final(self).high_volatility_symbols == old(self).high_volatility_symbols,
            final(self).realized_profit == old(self).realized_profit,
            final(self).cumulative_profit == old(self).cumulative_profit,
    {
        match find_key(&self.unrealized_pnl, symbol) {
            Some(i) => {
                let ghost s = self.unrealized_pnl@;
                let e = (symbol.to_string(), pnl);
                proof {
                    lemma_to_map_update(s, i as int, e);
                }
                self.unrealized_pnl.set(i, e);
            },
            None => {
                let ghost s = self.unrealized_pnl@;
                let e = (symbol.to_string(), pnl);
                proof {
                    lemma_to_map_push(s, e);
                }
                self.unrealized_pnl.push(e);
            },
        }
    }

    /// The unrealized profit of a symbol, zero when none is recorded.
    pub fn get_unrealized_pnl(&self, symbol: &str) -> (r: Dec)
        requires
            self.wf(),
        ensures
            r == pnl_of(self.pnl_map(), symbol@),
    {
        match find_key(&self.unrealized_pnl, symbol) {
            Some(i) => {
                proof {
                    lemma_to_map_index(self.unrealized_pnl@, i as int);
                }
                self.unrealized_pnl[i].1.copy()
            },
            None => {
                proof {
                    lemma_to_map_dom(self.unrealized_pnl@, symbol@);
                    Dec::lemma_of_parts(0, 0);
                }
                let z = Dec::zero();
                proof {
                    Dec::lemma_parts_eq(z, Dec::of_parts(0, 0));
                }
                z
            },
        }
    }

    /// The sum of the unrealized profits.
    pub fn total_unrealized_pnl(&self) -> (r: Dec)
        requires
            sum_values_ok(self.unrealized_pnl@),
        ensures
            r == sum_values(self.unrealized_pnl@),
    {
        proof {
            Dec::lemma_of_parts(0, 0);
        }
        let mut total = Dec::zero();
        proof {
            Dec::lemma_parts_eq(total, Dec::of_parts(0, 0));
            assert(self.unrealized_pnl@.take(0) =~= Seq::<(String, Dec)>::empty());
        }
        let mut i: usize = 0;
        while i < self.unrealized_pnl.len()
            invariant
                i <= self.unrealized_pnl@.len(),
                sum_values_ok(self.unrealized_pnl@),
                total == sum_values(self.unrealized_pnl@.take(i as int)),
            decreases self.unrealized_pnl@.len() - i,
        {
            assert(sum_in_range(sum_values(self.unrealized_pnl@.take(i as int)), self.unrealized_pnl@[i as int].1, 1));
            total = total.add(&self.unrealized_pnl[i].1);
            proof {
                let s = self.unrealized_pnl@;
                assert(s.take(i as int + 1).drop_last() =~= s.take(i as int));
                assert(s.take(i as int + 1).last() == s[i as int]);
            }
            i = i + 1;
        }
        proof {
            assert(self.unrealized_pnl@.take(i as int) =~= self.unrealized_pnl@);
        }
        total
    }

    pub fn add_low_volatility_symbol(&mut self, symbol: String)
        requires
            old(self).wf(),
        ensures
            final(self).wf(),
            forall|x: Seq<char>| final(self).is_low_spec(x) <==> (old(self).is_low_spec(x) || x == symbol@),
            final(self).high_volatility_symbols == old(self).high_volatility_symbols,
            final(self).unrealized_pnl == old(self).unrealized_pnl,
    {
        insert_name(&mut self.low_volatility_symbols, symbol);
    }

    pub fn remove_low_volatility_symbol(&mut self, symbol: &str)
        requires
            old(self).wf(),
        ensures
            final(self).wf(),
            forall|x: Seq<char>| final(self).is_low_spec(x) <==> (old(self).is_low_spec(x) && x != symbol@),
            final(self).high_volatility_symbols == old(self).high_volatility_symbols,
            final(self).unrealized_pnl == old(self).unrealized_pnl,
    {
        remove_name(&mut self.low_volatility_symbols, symbol);
    }

    pub fn add_high_volatility_symbol(&mut self, symbol: String)
        requires
            old(self).wf(),
        ensures
            final(self).wf(),
            forall|x: Seq<char>| final(self).is_high_spec(x) <==> (old(self).is_high_spec(x) || x == symbol@),
            final(self).low_volatility_symbols == old(self).low_volatility_symbols,
            final(self).unrealized_pnl == old(self).unrealized_pnl,
    {
        insert_name(&mut self.high_volatility_symbols, symbol);
    }

    pub fn remove_high_volatility_symbol(&mut self, symbol: &str)
        requires
            old(self).wf(),
        ensures
            final(self).wf(),
            forall|x: Seq<char>| final(self).is_high_spec(x) <==> (old(self).is_high_spec(x) && x != symbol@),
            final(self).low_volatility_symbols == old(self).low_volatility_symbols,
            final(self).unrealized_pnl == old(self).unrealized_pnl,
    {
        remove_name(&mut self.high_volatility_symbols, symbol);
    }

    pub fn is_low_volatility(&self, symbol: &str) -> (r: bool)
        ensures
            r == self.is_low_spec(symbol@),
    {
        let r = find_name(&self.low_volatility_symbols, symbol).is_some();
        proof {
            if r {
                let i = choose|i: int| 0 <= i < self.low_volatility_symbols@.len() && self.low_volatility_symbols@[i]@ == symbol@;
                assert(name_seq(self.low_volatility_symbols@)[i] == symbol@);
            }
        }
        r
    }

    pub fn is_high_volatility(&self, symbol: &str) -> (r: bool)
        ensures
            r == self.is_high_spec(symbol@),
    {
        let r = find_name(&self.high_volatility_symbols, symbol).is_some();
        proof {
            if r {
                let i = choose|i: int| 0 <= i < self.high_volatility_symbols@.len() && self.high_volatility_symbols@[i]@ == symbol@;
                assert(name_seq(self.high_volatility_symbols@)[i] == symbol@);
            }
        }
        r
    }

    /// A low-volatility symbol may open only when another low-volatility symbol among
    /// `other_symbols` is in profit; other symbols always may.
    pub fn check_low_volatility_mutex(&self, symbol: &str, other_symbols: &Vec<String>) -> (r: bool)
        requires
            self.wf(),
        ensures
            r == (!self.is_low_spec(symbol@) || exists|i: int|
                0 <= i < other_symbols@.len() && #[trigger] other_symbols@[i]@ != symbol@ && self.is_low_spec(
                    other_symbols@[i]@,
                ) && pnl_of(self.pnl_map(), other_symbols@[i]@).val() > 0),
    {
        if !self.is_low_volatility(symbol) {
            return true;
        }
        let mut i: usize = 0;
        while i < other_symbols.len()
            invariant
                self.wf(),
                i <= other_symbols@.len(),
                forall|j: int|
                    0 <= j < i ==> !(#[trigger] other_symbols@[j]@ != symbol@ && self.is_low_spec(other_symbols@[j]@)
                        && pnl_of(self.pnl_map(), other_symbols@[j]@).val() > 0),
            decreases other_symbols@.len() - i,
        {
            let other = &other_symbols[i];
            if !str_eq(other.as_str(), symbol) && self.is_low_volatility(other.as_str()) {
                let other_pnl = self.get_unrealized_pnl(other.as_str());
                if other_pnl.gt(&Dec::zero()) {
                    return true;
                }
            }
            i = i + 1;
        }
        false
    }

    /// When the high-volatility symbol's profit reaches `rescue_threshold`, the first
    /// low-volatility symbol in a loss is rescued with 20 % of that profit, at most its
    /// loss.
    pub fn rescue_low_volatility_symbols(&self, high_vol_symbol: &str, rescue_threshold: Dec) -> (r: Option<(String, Dec)>)
        requires
            self.wf(),
            product_in_range(pnl_of(self.pnl_map(), high_vol_symbol@), Dec::of_parts(2, 1)),
        ensures
            ({
                let h = pnl_of(self.pnl_map(), high_vol_symbol@);
                let low = self.low_volatility_symbols@;
                &&& h.val() < rescue_threshold.val() ==> r is None
                &&& h.val() >= rescue_threshold.val() && r is None ==> forall|j: int|
                    0 <= j < low.len() ==> pnl_of(self.pnl_map(), #[trigger] low[j]@).val() >= 0
                &&& r is Some ==> h.val() >= rescue_threshold.val() && exists|i: int|
                    0 <= i < low.len() && #[trigger] low[i]@ == r.unwrap().0@ && pnl_of(self.pnl_map(), low[i]@).val()
                        < 0 && (forall|j: int| 0 <= j < i ==> pnl_of(self.pnl_map(), #[trigger] low[j]@).val() >= 0)
                        && r.unwrap().1 == min_spec(
                        mul_spec(h, Dec::of_parts(2, 1)),
                        abs_spec(pnl_of(self.pnl_map(), low[i]@)),
                    )
            }),
    {
        let high_vol_pnl = self.get_unrealized_pnl(high_vol_symbol);
        if high_vol_pnl.lt(&rescue_threshold) {
            return None;
        }
        let share = Dec::new(2, 1);
        proof {
            Dec::lemma_of_parts(2, 1);
            Dec::lemma_parts_eq(share, Dec::of_parts(2, 1));
        }
        let mut i: usize = 0;
        while i < self.low_volatility_symbols.len()
            invariant
                self.wf(),
                i <= self.low_volatility_symbols@.len(),
                high_vol_pnl == pnl_of(self.pnl_map(), high_vol_symbol@),
                high_vol_pnl.val() >= rescue_threshold.val(),
                share == Dec::of_parts(2, 1),
                product_in_range(high_vol_pnl, share),
                forall|j: int| 0 <= j < i ==> pnl_of(self.pnl_map(), #[trigger] self.low_volatility_symbols@[j]@).val() >= 0,
            decreases self.low_volatility_symbols@.len() - i,
        {
            let low_vol_sym = &self.low_volatility_symbols[i];
            let low_vol_pnl = self.get_unrealized_pnl(low_vol_sym.as_str());
            if low_vol_pnl.lt(&Dec::zero()) {
                let rescue_amount = high_vol_pnl.mul(&share).min(&low_vol_pnl.abs());
                let name = low_vol_sym.clone();
                proof {
                    let low = self.low_volatility_symbols@;
                    assert(low[i as int]@ == name@);
                    assert(0 <= i < low.len() && low[i as int]@ == name@ && pnl_of(self.pnl_map(), low[i as int]@).val() < 0);
                    assert(forall|j: int| 0 <= j < i ==> pnl_of(self.pnl_map(), #[trigger] low[j]@).val() >= 0);
                    assert(rescue_amount == min_spec(
                        mul_spec(high_vol_pnl, Dec::of_parts(2, 1)),
                        abs_spec(pnl_of(self.pnl_map(), low[i as int]@)),
                    ));
                }
                return Some((name, rescue_amount));
            }
            i = i + 1;
        }
        None
    }

    /// Adds a settled profit to the realized profit.
    pub fn settle_realized_pnl(&mut self, pnl: Dec)
        requires
            sum_in_range(old(self).realized_profit, pnl, 1),
        ensures
            final(self).realized_profit == add_spec(old(self).realized_profit, pnl),
            final(self).cumulative_profit == old(self).cumulative_profit,
            final(self).unrealized_pnl == old(self).unrealized_pnl,
            final(self).low_volatility_symbols == old(self).low_volatility_symbols,
            final(self).high_volatility_symbols == old(self).high_volatility_symbols,
    {
        self.realized_profit = self.realized_profit.add(&pnl);
    }

    pub fn set_last_update_ts(&mut self, ts: i64)
        ensures
            final(self).last_update_ts == ts,
            final(self).unrealized_pnl == old(self).unrealized_pnl,
            final(self).low_volatility_symbols == old(self).low_volatility_symbols,
            final(self).high_volatility_symbols == old(self).high_volatility_symbols,
            final(self).realized_profit == old(self).realized_profit,
            final(self).cumulative_profit == old(self).cumulative_profit,
    {
        self.last_update_ts = ts;
    }

    pub fn get_last_update_ts(&self) -> (r: i64)
        ensures
            r == self.last_update_ts,
    {
        self.last_update_ts
    }

    /// Clears everything.
    pub fn reset(&mut self)
        ensures
            final(self).wf(),
            final(self).pnl_map() == Map::<Seq<char>, Dec>::empty(),
            final(self).low_volatility_symbols@.len() == 0,
            final(self).high_volatility_symbols@.len() == 0,
            final(self).cumulative_profit == Dec::of_parts(0, 0),
            final(self).realized_profit == Dec::of_parts(0, 0),
            final(self).last_update_ts == 0,
    {
        *self = PnlManager::new();
    }

    /// Realized plus unrealized profit.
    pub fn total_pnl(&self) -> (r: Dec)
        requires
            sum_values_ok(self.unrealized_pnl@),
            sum_in_range(self.realized_profit, sum_values(self.unrealized_pnl@), 1),
        ensures
            r == add_spec(self.realized_profit, sum_values(self.unrealized_pnl@)),
    {
        self.realized_profit.add(&self.total_unrealized_pnl())
    }

    /// Whether to close: the profit ratio `unrealized / entry_value` reached the target,
    /// or fell to the stop loss.  A non-positive entry value never closes.
    pub fn should_close_position(
        &self,
        unrealized_pnl: Dec,
        entry_value: Dec,
        profit_ratio: Dec,
        stop_loss_ratio: Dec,
    ) -> (r: (bool, &'static str))
        requires
            entry_value.val() > 0 ==> quotient_in_range(unrealized_pnl, entry_value),
        ensures
            entry_value.val() <= 0 ==> !r.0 && r.1@ == "entry_value_invalid"@,
            entry_value.val() > 0 ==> {
                let ratio = div_spec(unrealized_pnl, entry_value);
                &&& ratio.val() >= profit_ratio.val() ==> r.0 && r.1@ == "profit_target_reached"@
                &&& ratio.val() < profit_ratio.val() && ratio.val() <= -stop_loss_ratio.val() ==> r.0 && r.1@
                    == "stop_loss_triggered"@
                &&& ratio.val() < profit_ratio.val() && ratio.val() > -stop_loss_ratio.val() ==> !r.0 && r.1@
                    == "not_reached"@
            },
    {
        if entry_value.le(&Dec::zero()) {
            return (false, "entry_value_invalid");
        }
        let pnl_ratio = unrealized_pnl.div(&entry_value);
        if pnl_ratio.ge(&profit_ratio) {
            return (true, "profit_target_reached");
        }
        if pnl_ratio.le(&stop_loss_ratio.neg()) {
            return (true, "stop_loss_triggered");
        }
        (false, "not_reached")
    }
}

impl Default for PnlManager {
    fn default() -> (r: PnlManager)
        ensures
            r.wf(),
            r.pnl_map() == Map::<Seq<char>, Dec>::empty(),
    {
        PnlManager::new()
    }
}

/// A recorded profit is read back as written, and recording one symbol leaves the
/// others as they were.
pub proof fn lemma_pnl_read_after_write(m: Map<Seq<char>, Dec>, sym: Seq<char>, pnl: Dec, other: Seq<char>)
    requires
        other != sym,
    ensures
        pnl_of(m.insert(sym, pnl), sym) == pnl,
        pnl_of(m.insert(sym, pnl), other) == pnl_of(m, other),
{
}

} // verus!
