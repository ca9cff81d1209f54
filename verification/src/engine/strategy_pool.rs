//! Funds allocated to strategies: reservations, releases, and rebalancing by
//! priority.
use vstd::prelude::*;
use crate::decimal::{exact_sum, lemma_add_exact, lemma_sub_exact};
use crate::decimal::{
    Dec, rd_text, add_spec, sub_spec, mul_spec, div_spec, min_spec, sum_in_range, product_in_range,
    quotient_in_range,
};
use crate::keyed::{
    keys_unique, to_map, find_key, lemma_to_map_index, lemma_to_map_dom, lemma_to_map_update, lemma_to_map_push,
    lemma_to_map_remove,
};
use crate::text::with_amount;

verus! {

/// The funds of one strategy.
#[derive(Debug, Clone)]
pub struct StrategyAllocation {
    pub strategy_id: String,
    pub allocated: Dec,
    pub used: Dec,
    pub available: Dec,
    /// 0 to 100.
    pub priority: u8,
    pub enabled: bool,
}

/// Strategies and their funds.
pub struct StrategyPool {
    pub allocations: Vec<(String, StrategyAllocation)>,
    pub total_allocated: Dec,
    pub last_update_ts: i64,
    pub rebalance_interval_secs: i64,
}

/// "策略 <id> 未注册".
pub open spec fn not_registered_text(id: Seq<char>) -> Seq<char> {
    "策略 "@ + id + " 未注册"@
}

/// "策略 <id> 已禁用".
pub open spec fn disabled_text(id: Seq<char>) -> Seq<char> {
    "策略 "@ + id + " 已禁用"@
}

/// "策略 <id> 可用资金 <available> 不足，需要 <amount>".
pub open spec fn short_funds_text(id: Seq<char>, available: Dec, amount: Dec) -> Seq<char> {
    "策略 "@ + id + " 可用资金 "@ + rd_text(available.mant(), available.scl()) + " 不足，需要 "@ + rd_text(
        amount.mant(),
        amount.scl(),
    )
}

fn not_registered(id: &str) -> (r: String)
    ensures
        r@ == not_registered_text(id@),
{
    let mut s = "策略 ".to_string();
    s.append(id);
    s.append(" 未注册");
    s
}

/// The share of `total_funds` for a priority: `total_funds * (priority / total)`.
pub open spec fn priority_share(total_funds: Dec, priority: u8, total_priority: u32) -> Dec {
    mul_spec(total_funds, div_spec(Dec::of_parts(priority as int, 0), Dec::of_parts(total_priority as int, 0)))
}

/// The sum of the priorities of the enabled strategies among the first `n`.
pub open spec fn enabled_priority_sum(s: Seq<(String, StrategyAllocation)>, n: int) -> int
    decreases n,
{
    if n <= 0 {
        0
    } else {
        enabled_priority_sum(s, n - 1) + if s[n - 1].1.enabled { s[n - 1].1.priority as int } else { 0 }
    }
}

/// The number of enabled strategies among the first `n`.
pub open spec fn enabled_count_spec(s: Seq<(String, StrategyAllocation)>, n: int) -> int
    decreases n,
{
    if n <= 0 {
        0
    } else {
        enabled_count_spec(s, n - 1) + if s[n - 1].1.enabled { 1int } else { 0 }
    }
}

proof fn lemma_priority_sum_bound(s: Seq<(String, StrategyAllocation)>, n: int)
    requires
        0 <= n,
    ensures
        0 <= enabled_priority_sum(s, n) <= 255 * n,
        0 <= enabled_count_spec(s, n) <= n,
    decreases n,
{
    if n > 0 {
        lemma_priority_sum_bound(s, n - 1);
    }
}

/// The rebalanced allocation of an enabled strategy.
pub open spec fn rebalanced(a: StrategyAllocation, total_funds: Dec, total_priority: u32) -> StrategyAllocation {
    let n = priority_share(total_funds, a.priority, total_priority);
    StrategyAllocation { allocated: n, available: sub_spec(n, a.used), ..a }
}

/// Rebalancing computes without overflow.
pub open spec fn rebalance_ok(s: Seq<(String, StrategyAllocation)>, total_funds: Dec) -> bool {
    let tp = enabled_priority_sum(s, s.len() as int);
    tp > 0 ==> forall|i: int|
        0 <= i < s.len() && #[trigger] s[i].1.enabled ==> {
            &&& quotient_in_range(Dec::of_parts(s[i].1.priority as int, 0), Dec::of_parts(tp, 0))
            &&& product_in_range(
                total_funds,
                div_spec(Dec::of_parts(s[i].1.priority as int, 0), Dec::of_parts(tp, 0)),
            )
            &&& sum_in_range(priority_share(total_funds, s[i].1.priority, tp as u32), s[i].1.used, -1)
        }
}

/// `after` is `before` rebalanced to `total_funds` at `current_ts`: each enabled
/// strategy gets its share by priority (`rebalanced`), the others are kept, and the
/// total and time are updated; without strategies or enabled priority nothing changes.
pub open spec fn pool_rebalanced(before: StrategyPool, after: StrategyPool, total_funds: Dec, current_ts: i64) -> bool {
    let s = before.allocations@;
    let tp = enabled_priority_sum(s, s.len() as int);
    if s.len() == 0 || tp == 0 {
        after.allocations == before.allocations && after.total_allocated == before.total_allocated
            && after.last_update_ts == before.last_update_ts
    } else {
        &&& after.allocations@.len() == s.len()
        &&& forall|i: int|
            0 <= i < s.len() ==> (#[trigger] after.allocations@[i]).0 == s[i].0 && after.allocations@[i].1 == if s[i].1.enabled {
                rebalanced(s[i].1, total_funds, tp as u32)
            } else {
                s[i].1
            }
        &&& after.total_allocated == total_funds
        &&& after.last_update_ts == current_ts
    }
}

impl StrategyPool {
    /// Each strategy once, stored under its own id.
    pub open spec fn wf(self) -> bool {
        &&& keys_unique(self.allocations@)
        &&& forall|i: int| 0 <= i < self.allocations@.len() ==> #[trigger] self.allocations@[i].1.strategy_id@ == self.allocations@[i].0@
    }

    /// The allocations by strategy id.
    pub open spec fn alloc_map(self) -> Map<Seq<char>, StrategyAllocation> {
        to_map(self.allocations@)
    }

    pub fn new() -> (r: StrategyPool)
        ensures
            r.wf(),
            r.alloc_map() == Map::<Seq<char>, StrategyAllocation>::empty(),
            r.total_allocated == Dec::of_parts(0, 0),
            r.last_update_ts == 0,
            r.rebalance_interval_secs == 60,
    {
        StrategyPool { allocations: Vec::new(), total_allocated: Dec::zero(), last_update_ts: 0, rebalance_interval_secs: 60 }
    }

    /// Registers a strategy, enabled, with all of its allocation available; a strategy
    /// registered again is replaced.  The total grows by the allocation.
    pub fn register_strategy(&mut self, strategy_id: &str, initial_allocation: Dec, priority: u8)
        requires
            old(self).wf(),
            sum_in_range(old(self).total_allocated, initial_allocation, 1),
        ensures
            final(self).wf(),
            final(self).alloc_map() == old(self).alloc_map().insert(
                strategy_id@,
                StrategyAllocation {
                    strategy_id: final(self).alloc_map()[strategy_id@].strategy_id,
                    allocated: initial_allocation,
                    used: Dec::of_parts(0, 0),
                    available: initial_allocation,
                    priority,
                    enabled: true,
                },
            ),
            final(self).alloc_map()[strategy_id@].strategy_id@ == strategy_id@,
            final(self).total_allocated == add_spec(old(self).total_allocated, initial_allocation),
    {
        proof {
            Dec::lemma_of_parts(0, 0);
        }
        let zero = Dec::zero();
        proof {
            Dec::lemma_parts_eq(zero, Dec::of_parts(0, 0));
        }
        let allocation = StrategyAllocation {
            strategy_id: strategy_id.to_string(),
            allocated: initial_allocation.copy(),
            used: zero,
            available: initial_allocation.copy(),
            priority,
            enabled: true,
        };
        self.total_allocated = self.total_allocated.add(&initial_allocation);
        let ghost s = self.allocations@;
        let e = (strategy_id.to_string(), allocation);
        match find_key(&self.allocations, strategy_id) {
            Some(i) => {
                proof {
                    lemma_to_map_update(s, i as int, e);
                }
                self.allocations.set(i, e);
                proof {
                    lemma_to_map_index(self.allocations@, i as int);
                }
            },
            None => {
                proof {
                    lemma_to_map_push(s, e);
                }
                self.allocations.push(e);
                proof {
                    lemma_to_map_index(self.allocations@, s.len() as int);
                }
            },
        }
    }

    /// Removes a strategy; the total drops by its allocation.
    pub fn unregister_strategy(&mut self, strategy_id: &str)
        requires
            old(self).wf(),
            old(self).alloc_map().dom().contains(strategy_id@) ==> sum_in_range(
                old(self).total_allocated,
                old(self).alloc_map()[strategy_id@].allocated,
                -1,
            ),
        ensures
            final(self).wf(),
            final(self).alloc_map() == old(self).alloc_map().remove(strategy_id@),
            old(self).alloc_map().dom().contains(strategy_id@) ==> final(self).total_allocated == sub_spec(
                old(self).total_allocated,
                old(self).alloc_map()[strategy_id@].allocated,
            ),
            !old(self).alloc_map().dom().contains(strategy_id@) ==> final(self).total_allocated == old(self).total_allocated,
    {
        match find_key(&self.allocations, strategy_id) {
            Some(i) => {
                let ghost s = self.allocations@;
                proof {
                    lemma_to_map_index(s, i as int);
                    lemma_to_map_remove(s, i as int);
                }
                let removed = self.allocations.remove(i);
                self.total_allocated = self.total_allocated.sub(&removed.1.allocated);
                proof {
                    assert forall|k: int| 0 <= k < self.allocations@.len() implies #[trigger] self.allocations@[k].1.strategy_id@
                        == self.allocations@[k].0@ by {
                        if k < i {
                            assert(self.allocations@[k] == s[k]);
                        } else {
                            assert(self.allocations@[k] == s[k + 1]);
                        }
                    }
                }
            },
            None => {
                proof {
                    lemma_to_map_dom(self.allocations@, strategy_id@);
                    assert(self.alloc_map().remove(strategy_id@) =~= self.alloc_map());
                }
            },
        }
    }

    /// Whether the strategy is enabled and has `required_margin` available.
    pub fn can_open_position(&self, strategy_id: &str, required_margin: Dec) -> (r: bool)
        requires
            self.wf(),
        ensures
            r == (self.alloc_map().dom().contains(strategy_id@) && self.alloc_map()[strategy_id@].enabled
                && self.alloc_map()[strategy_id@].available.val() >= required_margin.val()),
    {
        match find_key(&self.allocations, strategy_id) {
            Some(i) => {
                proof {
                    lemma_to_map_index(self.allocations@, i as int);
                }
                let a = &self.allocations[i].1;
                a.enabled && a.available.ge(&required_margin)
            },
            None => {
                proof {
                    lemma_to_map_dom(self.allocations@, strategy_id@);
                }
                false
            },
        }
    }

    /// Moves `amount` from available to used: fails for an unknown or disabled
    /// strategy, or when not that much is available.
    pub fn reserve_margin(&mut self, strategy_id: &str, amount: Dec) -> (r: Result<(), String>)
        requires
            old(self).wf(),
            old(self).alloc_map().dom().contains(strategy_id@) ==> sum_in_range(
                old(self).alloc_map()[strategy_id@].available,
                amount,
                -1,
            ) && sum_in_range(old(self).alloc_map()[strategy_id@].used, amount, 1),
        ensures
            final(self).wf(),
            final(self).total_allocated == old(self).total_allocated,
            ({
                let m = old(self).alloc_map();
                let k = strategy_id@;
                if !m.dom().contains(k) {
                    r is Err && r->Err_0@ == not_registered_text(k) && final(self).alloc_map() == m
                } else if !m[k].enabled {
                    r is Err && r->Err_0@ == disabled_text(k) && final(self).alloc_map() == m
                } else if m[k].available.val() < amount.val() {
                    r is Err && r->Err_0@ == short_funds_text(k, m[k].available, amount) && final(self).alloc_map()
                        == m
                } else {
                    r is Ok && final(self).alloc_map() == m.insert(
                        k,
                        StrategyAllocation {
                            available: sub_spec(m[k].available, amount),
                            used: add_spec(m[k].used, amount),
                            ..m[k]
                        },
                    )
                }
            }),
    {
        match find_key(&self.allocations, strategy_id) {
            None => {
                proof {
                    lemma_to_map_dom(self.allocations@, strategy_id@);
                }
                Err(not_registered(strategy_id))
            },
            Some(i) => {
                proof {
                    lemma_to_map_index(self.allocations@, i as int);
                }
                let a = &self.allocations[i].1;
                if !a.enabled {
                    let mut s = "策略 ".to_string();
                    s.append(strategy_id);
                    s.append(" 已禁用");
                    return Err(s);
                }
                if a.available.lt(&amount) {
                    let mut s = "策略 ".to_string();
                    s.append(strategy_id);
                    let part = with_amount(" 可用资金 ", &a.available);
                    s.append(part.as_str());
                    let tail = with_amount(" 不足，需要 ", &amount);
                    s.append(tail.as_str());
                    return Err(s);
                }
                let updated = StrategyAllocation {
                    strategy_id: a.strategy_id.clone(),
                    allocated: a.allocated.copy(),
                    used: a.used.add(&amount),
                    available: a.available.sub(&amount),
                    priority: a.priority,
                    enabled: a.enabled,
                };
                self.replace_at(i, updated);
                Ok(())
            },
        }
    }

    /// Replaces the allocation at position `i`, keeping its id.
    fn replace_at(&mut self, i: usize, a: StrategyAllocation)
        requires
            old(self).wf(),
            i < old(self).allocations@.len(),
            a.strategy_id@ == old(self).allocations@[i as int].0@,
        ensures
            final(self).wf(),
            final(self).alloc_map() == old(self).alloc_map().insert(old(self).allocations@[i as int].0@, a),
            final(self).total_allocated == old(self).total_allocated,
            final(self).last_update_ts == old(self).last_update_ts,
            final(self).rebalance_interval_secs == old(self).rebalance_interval_secs,
            final(self).allocations@.len() == old(self).allocations@.len(),
            forall|j: int|
                0 <= j < final(self).allocations@.len() && j != i ==> final(self).allocations@[j] == old(self).allocations@[j],
            final(self).allocations@[i as int].1 == a,
            final(self).allocations@[i as int].0 == old(self).allocations@[i as int].0,
    {
        let ghost s = self.allocations@;
        let key = self.allocations[i].0.clone();
        let e = (key, a);
        proof {
            lemma_to_map_update(s, i as int, e);
        }
        self.allocations.set(i, e);
    }

    /// Returns `amount` from used to available (the used amount drops by at most what
    /// is used); fails for an unknown strategy.
    pub fn release_margin(&mut self, strategy_id: &str, amount: Dec) -> (r: Result<(), String>)
        requires
            old(self).wf(),
            old(self).alloc_map().dom().contains(strategy_id@) ==> sum_in_range(
                old(self).alloc_map()[strategy_id@].used,
                min_spec(amount, old(self).alloc_map()[strategy_id@].used),
                -1,
            ) && sum_in_range(old(self).alloc_map()[strategy_id@].available, amount, 1),
        ensures
            final(self).wf(),
            final(self).total_allocated == old(self).total_allocated,
            ({
                let m = old(self).alloc_map();
                let k = strategy_id@;
                if !m.dom().contains(k) {
                    r is Err && r->Err_0@ == not_registered_text(k) && final(self).alloc_map() == m
                } else {
                    r is Ok && final(self).alloc_map() == m.insert(
                        k,
                        StrategyAllocation {
                            used: sub_spec(m[k].used, min_spec(amount, m[k].used)),
                            available: add_spec(m[k].available, amount),
                            ..m[k]
                        },
                    )
                }
            }),
    {
        match find_key(&self.allocations, strategy_id) {
            None => {
                proof {
                    lemma_to_map_dom(self.allocations@, strategy_id@);
                }
                Err(not_registered(strategy_id))
            },
            Some(i) => {
                proof {
                    lemma_to_map_index(self.allocations@, i as int);
                }
                let a = &self.allocations[i].1;
                let updated = StrategyAllocation {
                    strategy_id: a.strategy_id.clone(),
                    allocated: a.allocated.copy(),
                    used: a.used.sub(&amount.min(&a.used)),
                    available: a.available.add(&amount),
                    priority: a.priority,
                    enabled: a.enabled,
                };
                self.replace_at(i, updated);
                Ok(())
            },
        }
    }

    /// Adds a profit (or loss) to the strategy's available funds; nothing for an
    /// unknown strategy.
    pub fn update_strategy_pnl(&mut self, strategy_id: &str, pnl: Dec)
        requires
            old(self).wf(),
            old(self).alloc_map().dom().contains(strategy_id@) ==> sum_in_range(
                old(self).alloc_map()[strategy_id@].available,
                pnl,
                1,
            ),
        ensures
            final(self).wf(),
            final(self).total_allocated == old(self).total_allocated,
            ({
                let m = old(self).alloc_map();
                let k = strategy_id@;
                if !m.dom().contains(k) {
                    final(self).alloc_map() == m
                } else {
                    final(self).alloc_map() == m.insert(
                        k,
                        StrategyAllocation { available: add_spec(m[k].available, pnl), ..m[k] },
                    )
                }
            }),
    {
        match find_key(&self.allocations, strategy_id) {
            None => {
                proof {
                    lemma_to_map_dom(self.allocations@, strategy_id@);
                }
            },
            Some(i) => {
                proof {
                    lemma_to_map_index(self.allocations@, i as int);
                }
                let a = &self.allocations[i].1;
                let updated = StrategyAllocation {
                    strategy_id: a.strategy_id.clone(),
                    allocated: a.allocated.copy(),
                    used: a.used.copy(),
                    available: a.available.add(&pnl),
                    priority: a.priority,
                    enabled: a.enabled,
                };
                self.replace_at(i, updated);
            },
        }
    }

    /// Sets the strategy's allocation; what is available is the allocation minus
    /// what is used, and the total follows.
    pub fn set_allocation(&mut self, strategy_id: &str, amount: Dec) -> (r: Result<(), String>)
        requires
            old(self).wf(),
            old(self).alloc_map().dom().contains(strategy_id@) ==> {
                let a = old(self).alloc_map()[strategy_id@];
                &&& sum_in_range(old(self).total_allocated, a.allocated, -1)
                &&& sum_in_range(sub_spec(old(self).total_allocated, a.allocated), amount, 1)
                &&& sum_in_range(amount, a.used, -1)
            },
        ensures
            final(self).wf(),
            ({
                let m = old(self).alloc_map();
                let k = strategy_id@;
                if !m.dom().contains(k) {
                    r is Err && r->Err_0@ == not_registered_text(k) && final(self).alloc_map() == m
                        && final(self).total_allocated == old(self).total_allocated
                } else {
                    &&& r is Ok
                    &&& final(self).alloc_map() == m.insert(
                        k,
                        StrategyAllocation { allocated: amount, available: sub_spec(amount, m[k].used), ..m[k] },
                    )
                    &&& final(self).total_allocated == add_spec(
                        sub_spec(old(self).total_allocated, m[k].allocated),
                        amount,
                    )
                }
            }),
    {
        match find_key(&self.allocations, strategy_id) {
            None => {
                proof {
                    lemma_to_map_dom(self.allocations@, strategy_id@);
                }
                Err(not_registered(strategy_id))
            },
            Some(i) => {
                proof {
                    lemma_to_map_index(self.allocations@, i as int);
                }
                let a = &self.allocations[i].1;
                let total = self.total_allocated.sub(&a.allocated).add(&amount);
                let updated = StrategyAllocation {
                    strategy_id: a.strategy_id.clone(),
                    allocated: amount.copy(),
                    used: a.used.copy(),
                    available: amount.sub(&a.used),
                    priority: a.priority,
                    enabled: a.enabled,
                };
                self.replace_at(i, updated);
                self.total_allocated = total;
                Ok(())
            },
        }
    }

    /// Adds to the strategy's allocation, its available funds and the total.
    pub fn add_allocation(&mut self, strategy_id: &str, amount: Dec) -> (r: Result<(), String>)
        requires
            old(self).wf(),
            old(self).alloc_map().dom().contains(strategy_id@) ==> {
                let a = old(self).alloc_map()[strategy_id@];
                &&& sum_in_range(a.allocated, amount, 1)
                &&& sum_in_range(a.available, amount, 1)
                &&& sum_in_range(old(self).total_allocated, amount, 1)
            },
        ensures
            final(self).wf(),
            ({
                let m = old(self).alloc_map();
                let k = strategy_id@;
                if !m.dom().contains(k) {
                    r is Err && r->Err_0@ == not_registered_text(k) && final(self).alloc_map() == m
                        && final(self).total_allocated == old(self).total_allocated
                } else {
                    &&& r is Ok
                    &&& final(self).alloc_map() == m.insert(
                        k,
                        StrategyAllocation {
                            allocated: add_spec(m[k].allocated, amount),
                            available: add_spec(m[k].available, amount),
                            ..m[k]
                        },
                    )
                    &&& final(self).total_allocated == add_spec(old(self).total_allocated, amount)
                }
            }),
    {
        match find_key(&self.allocations, strategy_id) {
            None => {
                proof {
                    lemma_to_map_dom(self.allocations@, strategy_id@);
                }
                Err(not_registered(strategy_id))
            },
            Some(i) => {
                proof {
                    lemma_to_map_index(self.allocations@, i as int);
                }
                let a = &self.allocations[i].1;
                let updated = StrategyAllocation {
                    strategy_id: a.strategy_id.clone(),
                    allocated: a.allocated.add(&amount),
                    used: a.used.copy(),
                    available: a.available.add(&amount),
                    priority: a.priority,
                    enabled: a.enabled,
                };
                self.replace_at(i, updated);
                self.total_allocated = self.total_allocated.add(&amount);
                Ok(())
            },
        }
    }

    /// Sets a strategy's priority; nothing for an unknown strategy.
    pub fn set_priority(&mut self, strategy_id: &str, priority: u8)
        requires
            old(self).wf(),
        ensures
            final(self).wf(),
            final(self).total_allocated == old(self).total_allocated,
            old(self).alloc_map().dom().contains(strategy_id@) ==> final(self).alloc_map() == old(self).alloc_map().insert(strategy_id@, StrategyAllocation { priority, ..old(self).alloc_map()[strategy_id@] }),
            !old(self).alloc_map().dom().contains(strategy_id@) ==> final(self).alloc_map() == old(self).alloc_map(),
    {
        match find_key(&self.allocations, strategy_id) {
            None => {
                proof {
                    lemma_to_map_dom(self.allocations@, strategy_id@);
                }
            },
            Some(i) => {
                proof {
                    lemma_to_map_index(self.allocations@, i as int);
                }
                let a = &self.allocations[i].1;
                let updated = StrategyAllocation {
                    strategy_id: a.strategy_id.clone(),
                    allocated: a.allocated.copy(),
                    used: a.used.copy(),
                    available: a.available.copy(),
                    priority,
                    enabled: a.enabled,
                };
                self.replace_at(i, updated);
            },
        }
    }

    /// Enables or disables a strategy; nothing for an unknown strategy.
    pub fn set_enabled(&mut self, strategy_id: &str, enabled: bool)
        requires
            old(self).wf(),
        ensures
            final(self).wf(),
            final(self).total_allocated == old(self).total_allocated,
            old(self).alloc_map().dom().contains(strategy_id@) ==> final(self).alloc_map() == old(self).alloc_map().insert(strategy_id@, StrategyAllocation { enabled, ..old(self).alloc_map()[strategy_id@] }),
            !old(self).alloc_map().dom().contains(strategy_id@) ==> final(self).alloc_map() == old(self).alloc_map(),
    {
        match find_key(&self.allocations, strategy_id) {
            None => {
                proof {
                    lemma_to_map_dom(self.allocations@, strategy_id@);
                }
            },
            Some(i) => {
                proof {
                    lemma_to_map_index(self.allocations@, i as int);
                }
                let a = &self.allocations[i].1;
                let updated = StrategyAllocation {
                    strategy_id: a.strategy_id.clone(),
                    allocated: a.allocated.copy(),
                    used: a.used.copy(),
                    available: a.available.copy(),
                    priority: a.priority,
                    enabled,
                };
                self.replace_at(i, updated);
            },
        }
    }

    /// Due when the interval has passed since the last rebalance.
    pub fn needs_rebalance(&self, current_ts: i64) -> (r: bool)
        requires
            i64::MIN <= current_ts - self.last_update_ts <= i64::MAX,
        ensures
            r == (current_ts - self.last_update_ts >= self.rebalance_interval_secs),
    {
        current_ts - self.last_update_ts >= self.rebalance_interval_secs
    }

    /// Shares `total_funds` among the enabled strategies in proportion to their
    /// priorities; what each has used stays used.  Nothing happens without strategies
    /// or without enabled priority.
    pub fn rebalance(&mut self, total_funds: Dec, current_ts: i64)
        requires
            old(self).wf(),
            old(self).allocations@.len() < 0x100_0000,
            rebalance_ok(old(self).allocations@, total_funds),
        ensures
            final(self).wf(),
            pool_rebalanced(*old(self), *final(self), total_funds, current_ts),
    {
        if self.allocations.len() == 0 {
            return;
        }
        let ghost s = self.allocations@;
        let mut total_priority: u32 = 0;
        let mut i: usize = 0;
        while i < self.allocations.len()
            invariant
                self.allocations@ == s,
                s.len() < 0x100_0000,
                i <= s.len(),
                total_priority == enabled_priority_sum(s, i as int),
            decreases s.len() - i,
        {
            proof {
                lemma_priority_sum_bound(s, i as int);
            }
            if self.allocations[i].1.enabled {
                total_priority = total_priority + self.allocations[i].1.priority as u32;
            }
            i = i + 1;
        }
        if total_priority == 0 {
            return;
        }
        let tp = Dec::from_int(total_priority as i64);
        proof {
            lemma_priority_sum_bound(s, s.len() as int);
            Dec::lemma_of_parts(total_priority as int, 0);
            Dec::lemma_parts_eq(tp, Dec::of_parts(total_priority as int, 0));
        }
        let mut j: usize = 0;
        while j < self.allocations.len()
            invariant
                self.wf(),
                s.len() == self.allocations@.len(),
                j <= s.len(),
                total_priority as int == enabled_priority_sum(s, s.len() as int),
                total_priority > 0,
                tp == Dec::of_parts(total_priority as int, 0),
                rebalance_ok(s, total_funds),
                forall|k: int|
                    0 <= k < j ==> (#[trigger] self.allocations@[k]).0 == s[k].0 && self.allocations@[k].1 == if s[k].1.enabled {
                        rebalanced(s[k].1, total_funds, total_priority)
                    } else {
                        s[k].1
                    },
                forall|k: int| j <= k < s.len() ==> #[trigger] self.allocations@[k] == s[k],
                self.total_allocated == old(self).total_allocated,
                self.last_update_ts == old(self).last_update_ts,
            decreases s.len() - j,
        {
            let a = &self.allocations[j].1;
            if a.enabled {
                proof {
                    assert(self.allocations@[j as int] == s[j as int]);
                    assert(s[j as int].1.enabled);
                }
                let p = Dec::from_int(a.priority as i64);
                proof {
                    Dec::lemma_of_parts(a.priority as int, 0);
                    Dec::lemma_parts_eq(p, Dec::of_parts(a.priority as int, 0));
                }
                let ratio = p.div(&tp);
                let new_allocated = total_funds.mul(&ratio);
                let updated = StrategyAllocation {
                    strategy_id: a.strategy_id.clone(),
                    allocated: new_allocated.copy(),
                    used: a.used.copy(),
                    available: new_allocated.sub(&a.used),
                    priority: a.priority,
                    enabled: a.enabled,
                };
                self.replace_at(j, updated);
            }
            j = j + 1;
        }
        self.total_allocated = total_funds;
        self.last_update_ts = current_ts;
    }

    pub fn set_rebalance_interval(&mut self, secs: i64)
        ensures
            final(self).rebalance_interval_secs == secs,
            final(self).allocations == old(self).allocations,
            final(self).total_allocated == old(self).total_allocated,
            final(self).last_update_ts == old(self).last_update_ts,
    {
        self.rebalance_interval_secs = secs;
    }

    /// The allocation of a strategy.
    pub fn get_allocation(&self, strategy_id: &str) -> (r: Option<&StrategyAllocation>)
        requires
            self.wf(),
        ensures
            r is Some <==> self.alloc_map().dom().contains(strategy_id@),
            r is Some ==> *r.unwrap() == self.alloc_map()[strategy_id@],
    {
        match find_key(&self.allocations, strategy_id) {
            Some(i) => {
                proof {
                    lemma_to_map_index(self.allocations@, i as int);
                }
                Some(&self.allocations[i].1)
            },
            None => {
                proof {
                    lemma_to_map_dom(self.allocations@, strategy_id@);
                }
                None
            },
        }
    }

    /// All allocations, keyed by strategy id.
    pub fn get_all_allocations(&self) -> (r: &Vec<(String, StrategyAllocation)>)
        ensures
            to_map(r@) == self.alloc_map(),
    {
        &self.allocations
    }

    pub fn total_allocated(&self) -> (r: Dec)
        ensures
            r == self.total_allocated,
    {
        self.total_allocated.copy()
    }

    /// What a strategy uses; zero for an unknown one.
    pub fn used_margin(&self, strategy_id: &str) -> (r: Dec)
        requires
            self.wf(),
        ensures
            r == if self.alloc_map().dom().contains(strategy_id@) {
                self.alloc_map()[strategy_id@].used
            } else {
                Dec::of_parts(0, 0)
            },
    {
        match self.get_allocation(strategy_id) {
            Some(a) => a.used.copy(),
            None => {
                proof {
                    Dec::lemma_of_parts(0, 0);
                }
                let z = Dec::zero();
                proof {
                    Dec::lemma_parts_eq(z, Dec::of_parts(0, 0));
                }
                z
            },
        }
    }

    /// What a strategy has available; zero for an unknown one.
    pub fn available_margin(&self, strategy_id: &str) -> (r: Dec)
        requires
            self.wf(),
        ensures
            r == if self.alloc_map().dom().contains(strategy_id@) {
                self.alloc_map()[strategy_id@].available
            } else {
                Dec::of_parts(0, 0)
            },
    {
        match self.get_allocation(strategy_id) {
            Some(a) => a.available.copy(),
            None => {
                proof {
                    Dec::lemma_of_parts(0, 0);
                }
                let z = Dec::zero();
                proof {
                    Dec::lemma_parts_eq(z, Dec::of_parts(0, 0));
                }
                z
            },
        }
    }

    /// The number of enabled strategies.
    pub fn enabled_count(&self) -> (r: usize)
        ensures
            r == enabled_count_spec(self.allocations@, self.allocations@.len() as int),
    {
        let mut n: usize = 0;
        let mut i: usize = 0;
        while i < self.allocations.len()
            invariant
                i <= self.allocations@.len(),
                n == enabled_count_spec(self.allocations@, i as int),
            decreases self.allocations@.len() - i,
        {
            proof {
                lemma_priority_sum_bound(self.allocations@, i as int);
            }
            if self.allocations[i].1.enabled {
                n = n + 1;
            }
            i = i + 1;
        }
        n
    }

    /// A strategy's priority.
    pub fn priority(&self, strategy_id: &str) -> (r: Option<u8>)
        requires
            self.wf(),
        ensures
            r == if self.alloc_map().dom().contains(strategy_id@) {
                Some(self.alloc_map()[strategy_id@].priority)
            } else {
                None
            },
    {
        match self.get_allocation(strategy_id) {
            Some(a) => Some(a.priority),
            None => None,
        }
    }

    /// Whether a strategy is enabled; false for an unknown one.
    pub fn is_enabled(&self, strategy_id: &str) -> (r: bool)
        requires
            self.wf(),
        ensures
            r == (self.alloc_map().dom().contains(strategy_id@) && self.alloc_map()[strategy_id@].enabled),
    {
        match self.get_allocation(strategy_id) {
            Some(a) => a.enabled,
            None => false,
        }
    }

    /// Clears the pool.
    pub fn reset(&mut self)
        ensures
            final(self).wf(),
            final(self).alloc_map() == Map::<Seq<char>, StrategyAllocation>::empty(),
            final(self).total_allocated == Dec::of_parts(0, 0),
            final(self).last_update_ts == 0,
            final(self).rebalance_interval_secs == old(self).rebalance_interval_secs,
    {
        self.allocations = Vec::new();
        self.total_allocated = Dec::zero();
        self.last_update_ts = 0;
    }
}

impl Default for StrategyPool {
    fn default() -> (r: StrategyPool)
        ensures
            r.wf(),
            r.alloc_map() == Map::<Seq<char>, StrategyAllocation>::empty(),
    {
        StrategyPool::new()
    }
}

/// Reserving margin for a strategy and releasing the same amount gives back its used
/// and available funds, by value, whenever neither step rounds.
pub proof fn lemma_reserve_release_restores(a: StrategyAllocation, amount: Dec)
    requires
        a.used.wf(),
        a.available.wf(),
        amount.wf(),
        0 <= amount.val() <= a.available.val(),
        a.used.val() >= 0,
        exact_sum(a.available, amount, -1),
        exact_sum(a.used, amount, 1),
        exact_sum(add_spec(a.used, amount), amount, -1),
        exact_sum(sub_spec(a.available, amount), amount, 1),
    ensures
        ({
            let used1 = add_spec(a.used, amount);
            let available1 = sub_spec(a.available, amount);
            &&& sub_spec(used1, min_spec(amount, used1)).val() == a.used.val()
            &&& add_spec(available1, amount).val() == a.available.val()
        }),
{
    lemma_add_exact(a.used, amount);
    lemma_sub_exact(a.available, amount);
    let used1 = add_spec(a.used, amount);
    let available1 = sub_spec(a.available, amount);
    assert(min_spec(amount, used1) == amount);
    lemma_sub_exact(used1, amount);
    lemma_add_exact(available1, amount);
}

} // verus!
