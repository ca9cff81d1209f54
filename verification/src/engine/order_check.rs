//! Order pre-checks and margin reservations per order.
use vstd::prelude::*;
use crate::decimal::{exact_sum, lemma_add_exact, lemma_sub_exact};
use crate::decimal::{
    Dec, rd_text, add_spec, sub_spec, div_spec, sum_in_range, quotient_in_range,
};
use crate::keyed::{
    keys_unique, to_map, find_key, lemma_to_map_index, lemma_to_map_dom, lemma_to_map_push, lemma_to_map_remove,
};
use crate::text::{with_amount, str_eq};

verus! {

/// The outcome of a pre-check.
#[derive(Debug, Clone)]
pub struct OrderCheckResult {
    pub passed: bool,
    pub frozen_amount: Dec,
    pub reject_reason: Option<String>,
    pub timestamp: i64,
}

/// Margin reserved for one order.
#[derive(Debug, Clone)]
pub struct OrderReservation {
    pub order_id: String,
    pub symbol: String,
    pub strategy_id: String,
    pub frozen_amount: Dec,
    pub created_at: i64,
    /// "pending", "confirmed" or "cancelled".
    pub status: String,
}

/// Checks orders and keeps their reservations.
pub struct OrderCheck {
    pub max_position_ratio: Dec,
    pub min_order_notional: Dec,
    pub reservations: Vec<(String, OrderReservation)>,
    pub total_frozen: Dec,
}

/// The exposure ratio after the order: `(exposure + value) / (available + exposure)`.
pub open spec fn new_ratio_spec(value: Dec, available: Dec, exposure: Dec) -> Dec {
    div_spec(add_spec(exposure, value), add_spec(available, exposure))
}

/// What the pre-check needs to compute, at each step it reaches.
pub open spec fn pre_check_ok(c: OrderCheck, value: Dec, available: Dec, exposure: Dec) -> bool {
    value.val() >= c.min_order_notional.val() ==> {
        &&& sum_in_range(c.total_frozen, value, 1)
        &&& add_spec(c.total_frozen, value).val() <= available.val() ==> {
            &&& sum_in_range(exposure, value, 1)
            &&& sum_in_range(available, exposure, 1)
            &&& quotient_in_range(add_spec(exposure, value), add_spec(available, exposure))
        }
    }
}

/// Why the pre-check rejects, or `None` when it passes.
pub open spec fn pre_check_reason(c: OrderCheck, value: Dec, available: Dec, exposure: Dec) -> Option<Seq<char>> {
    let needed = add_spec(c.total_frozen, value);
    let ratio = new_ratio_spec(value, available, exposure);
    if value.val() < c.min_order_notional.val() {
        Some(
            "订单名义价值 "@ + rd_text(value.mant(), value.scl()) + " 小于最低要求 "@ + rd_text(
                c.min_order_notional.mant(),
                c.min_order_notional.scl(),
            ),
        )
    } else if needed.val() > available.val() {
        Some(
            "可用资金 "@ + rd_text(available.mant(), available.scl()) + " 不足，需要 "@ + rd_text(
                needed.mant(),
                needed.scl(),
            ) + " (已冻结 "@ + rd_text(c.total_frozen.mant(), c.total_frozen.scl()) + ")"@,
        )
    } else if ratio.val() > c.max_position_ratio.val() {
        Some(
            "持仓比例 "@ + rd_text(ratio.mant(), ratio.scl()) + " 超过最大限制 "@ + rd_text(
                c.max_position_ratio.mant(),
                c.max_position_ratio.scl(),
            ),
        )
    } else {
        None
    }
}

/// "订单 <id><suffix>".
pub open spec fn order_text(id: Seq<char>, suffix: Seq<char>) -> Seq<char> {
    "订单 "@ + id + suffix
}

fn order_message(id: &str, suffix: &str) -> (r: String)
    ensures
        r@ == order_text(id@, suffix@),
{
    let mut s = "订单 ".to_string();
    s.append(id);
    s.append(suffix);
    s
}

/// The pending reservations of a list, in order.
pub open spec fn pending_of(s: Seq<(String, OrderReservation)>) -> Seq<OrderReservation>
    decreases s.len(),
{
    if s.len() == 0 {
        Seq::empty()
    } else if s.last().1.status@ == "pending"@ {
        pending_of(s.drop_last()).push(s.last().1)
    } else {
        pending_of(s.drop_last())
    }
}

/// The sum of the frozen amounts of the pending reservations of a list, by value.
pub open spec fn pending_total(s: Seq<(String, OrderReservation)>) -> int
    decreases s.len(),
{
    if s.len() == 0 {
        0
    } else {
        pending_total(s.drop_last()) + if s.last().1.status@ == "pending"@ {
            s.last().1.frozen_amount.val()
        } else {
            0
        }
    }
}

/// Removing an entry takes its amount out of the pending total when it was pending.
proof fn lemma_pending_total_remove(s: Seq<(String, OrderReservation)>, i: int)
    requires
        0 <= i < s.len(),
    ensures
        pending_total(s.remove(i)) == pending_total(s) - if s[i].1.status@ == "pending"@ {
            s[i].1.frozen_amount.val()
        } else {
            0
        },
    decreases s.len(),
{
    if i == s.len() - 1 {
        assert(s.remove(i) =~= s.drop_last());
    } else {
        let t = s.drop_last();
        lemma_pending_total_remove(t, i);
        assert(s.remove(i) =~= t.remove(i).push(s.last()));
        assert(s.remove(i).drop_last() =~= t.remove(i));
        assert(t[i] == s[i]);
    }
}

impl OrderCheck {
    /// The frozen total is the sum of the pending reservations' amounts.
    pub open spec fn frozen_matches(self) -> bool {
        self.total_frozen.val() == pending_total(self.reservations@)
    }

    /// One reservation per order id, stored under its id.
    pub open spec fn wf(self) -> bool {
        keys_unique(self.reservations@)
    }

    pub open spec fn reservation_map(self) -> Map<Seq<char>, OrderReservation> {
        to_map(self.reservations@)
    }

    /// At most 95 % of the equity in positions; orders of at least 10.
    pub fn new() -> (r: OrderCheck)
        ensures
            r.wf(),
            r.max_position_ratio.mant() == 95 && r.max_position_ratio.scl() == 2,
            r.min_order_notional.mant() == 100 && r.min_order_notional.scl() == 1,
            r.reservation_map() == Map::<Seq<char>, OrderReservation>::empty(),
            r.total_frozen == Dec::of_parts(0, 0),
            r.frozen_matches(),
    {
        OrderCheck {
            max_position_ratio: Dec::new(95, 2),
            min_order_notional: Dec::new(100, 1),
            reservations: Vec::new(),
            total_frozen: Dec::zero(),
        }
    }

    /// Checks an order of `order_value` at time `now`: it must reach the minimum
    /// notional, fit in the available balance together with what is frozen, and keep
    /// the exposure ratio at most the maximum.  A passing order freezes its value.
    pub fn pre_check_at(
        &self,
        order_id: &str,
        symbol: &str,
        strategy_id: &str,
        order_value: Dec,
        available_balance: Dec,
        current_exposure: Dec,
        now: i64,
    ) -> (r: OrderCheckResult)
        requires
            pre_check_ok(*self, order_value, available_balance, current_exposure),
        ensures
            r.timestamp == now,
            match pre_check_reason(*self, order_value, available_balance, current_exposure) {
                Some(reason) => !r.passed && r.frozen_amount == Dec::of_parts(0, 0) && r.reject_reason is Some
                    && r.reject_reason.unwrap()@ == reason,
                None => r.passed && r.frozen_amount == order_value && r.reject_reason is None,
            },
    {
        proof {
            Dec::lemma_of_parts(0, 0);
        }
        let zero = Dec::zero();
        proof {
            Dec::lemma_parts_eq(zero, Dec::of_parts(0, 0));
        }
        if order_value.lt(&self.min_order_notional) {
            let mut msg = with_amount("订单名义价值 ", &order_value);
            let tail = with_amount(" 小于最低要求 ", &self.min_order_notional);
            msg.append(tail.as_str());
            return OrderCheckResult { passed: false, frozen_amount: zero, reject_reason: Some(msg), timestamp: now };
        }
        let total_needed = self.total_frozen.add(&order_value);
        if total_needed.gt(&available_balance) {
            let mut msg = with_amount("可用资金 ", &available_balance);
            let part = with_amount(" 不足，需要 ", &total_needed);
            msg.append(part.as_str());
            let part2 = with_amount(" (已冻结 ", &self.total_frozen);
            msg.append(part2.as_str());
            msg.append(")");
            return OrderCheckResult { passed: false, frozen_amount: zero, reject_reason: Some(msg), timestamp: now };
        }
        let new_exposure = current_exposure.add(&order_value);
        let total_equity = available_balance.add(&current_exposure);
        let new_ratio = new_exposure.div(&total_equity);
        if new_ratio.gt(&self.max_position_ratio) {
            let mut msg = with_amount("持仓比例 ", &new_ratio);
            let tail = with_amount(" 超过最大限制 ", &self.max_position_ratio);
            msg.append(tail.as_str());
            return OrderCheckResult { passed: false, frozen_amount: zero, reject_reason: Some(msg), timestamp: now };
        }
        OrderCheckResult { passed: true, frozen_amount: order_value, reject_reason: None, timestamp: now }
    }

    /// `pre_check_at`, stamped with the current time.
    pub fn pre_check(
        &self,
        order_id: &str,
        symbol: &str,
        strategy_id: &str,
        order_value: Dec,
        available_balance: Dec,
        current_exposure: Dec,
    ) -> (r: OrderCheckResult)
        requires
            pre_check_ok(*self, order_value, available_balance, current_exposure),
        ensures
            match pre_check_reason(*self, order_value, available_balance, current_exposure) {
                Some(reason) => !r.passed && r.frozen_amount == Dec::of_parts(0, 0) && r.reject_reason is Some
                    && r.reject_reason.unwrap()@ == reason,
                None => r.passed && r.frozen_amount == order_value && r.reject_reason is None,
            },
    {
        let now = crate::clock::utc_now_secs();
        self.pre_check_at(order_id, symbol, strategy_id, order_value, available_balance, current_exposure, now)
    }

    /// Reserves `frozen_amount` for an order at time `now`; an order can be reserved
    /// once.
    pub fn reserve_at(&mut self, order_id: &str, symbol: &str, strategy_id: &str, frozen_amount: Dec, now: i64) -> (r: Result<(), String>)
        requires
            old(self).wf(),
            !old(self).reservation_map().dom().contains(order_id@) ==> sum_in_range(
                old(self).total_frozen,
                frozen_amount,
                1,
            ),
        ensures
            final(self).wf(),
            old(self).frozen_matches() && (!old(self).reservation_map().dom().contains(order_id@) ==> exact_sum(
                old(self).total_frozen,
                frozen_amount,
                1,
            )) ==> final(self).frozen_matches(),
            final(self).reservations@.len() == old(self).reservations@.len() + if old(
                self,
            ).reservation_map().dom().contains(order_id@) {
                0int
            } else {
                1int
            },
            final(self).max_position_ratio == old(self).max_position_ratio,
            final(self).min_order_notional == old(self).min_order_notional,
            old(self).reservation_map().dom().contains(order_id@) ==> r is Err && r->Err_0@ == order_text(
                order_id@,
                " 已经有预占记录"@,
            ) && final(self).reservation_map() == old(self).reservation_map() && final(self).total_frozen == old(
                self).total_frozen,
            !old(self).reservation_map().dom().contains(order_id@) ==> {
                &&& r is Ok
                &&& final(self).total_frozen == add_spec(old(self).total_frozen, frozen_amount)
                &&& final(self).reservation_map().dom() == old(self).reservation_map().dom().insert(order_id@)
                &&& forall|k: Seq<char>| k != order_id@ && old(self).reservation_map().dom().contains(k) ==> final(
                    self).reservation_map()[k] == old(self).reservation_map()[k]
                &&& ({
                    let res = final(self).reservation_map()[order_id@];
                    &&& res.order_id@ == order_id@
                    &&& res.symbol@ == symbol@
                    &&& res.strategy_id@ == strategy_id@
                    &&& res.frozen_amount == frozen_amount
                    &&& res.created_at == now
                    &&& res.status@ == "pending"@
                })
            },
    {
        match find_key(&self.reservations, order_id) {
            Some(i) => {
                proof {
                    lemma_to_map_index(self.reservations@, i as int);
                }
                Err(order_message(order_id, " 已经有预占记录"))
            },
            None => {
                let reservation = OrderReservation {
                    order_id: order_id.to_string(),
                    symbol: symbol.to_string(),
                    strategy_id: strategy_id.to_string(),
                    frozen_amount: frozen_amount.copy(),
                    created_at: now,
                    status: "pending".to_string(),
                };
                let ghost s = self.reservations@;
                let e = (order_id.to_string(), reservation);
                proof {
                    lemma_to_map_dom(s, order_id@);
                    lemma_to_map_push(s, e);
                }
                self.reservations.push(e);
                let ghost old_total = self.total_frozen;
                proof {
                    use_type_invariant(&self.total_frozen);
                    use_type_invariant(&frozen_amount);
                }
                self.total_frozen = self.total_frozen.add(&frozen_amount);
                proof {
                    assert(self.reservations@.drop_last() =~= s);
                    if exact_sum(old_total, frozen_amount, 1) {
                        lemma_add_exact(old_total, frozen_amount);
                    }
                }
                Ok(())
            },
        }
    }

    /// `reserve_at`, stamped with the current time.
    pub fn reserve(&mut self, order_id: &str, symbol: &str, strategy_id: &str, frozen_amount: Dec) -> (r: Result<(), String>)
        requires
            old(self).wf(),
            !old(self).reservation_map().dom().contains(order_id@) ==> sum_in_range(
                old(self).total_frozen,
                frozen_amount,
                1,
            ),
        ensures
            final(self).wf(),
            old(self).frozen_matches() && (!old(self).reservation_map().dom().contains(order_id@) ==> exact_sum(
                old(self).total_frozen,
                frozen_amount,
                1,
            )) ==> final(self).frozen_matches(),
            final(self).reservations@.len() == old(self).reservations@.len() + if old(
                self,
            ).reservation_map().dom().contains(order_id@) {
                0int
            } else {
                1int
            },
            old(self).reservation_map().dom().contains(order_id@) ==> r is Err && final(self).reservation_map()
                == old(self).reservation_map() && final(self).total_frozen == old(self).total_frozen,
            final(self).max_position_ratio == old(self).max_position_ratio,
            final(self).min_order_notional == old(self).min_order_notional,
            !old(self).reservation_map().dom().contains(order_id@) ==> {
                &&& r is Ok
                &&& final(self).total_frozen == add_spec(old(self).total_frozen, frozen_amount)
                &&& final(self).reservation_map().dom() == old(self).reservation_map().dom().insert(order_id@)
                &&& forall|k: Seq<char>| k != order_id@ && old(self).reservation_map().dom().contains(k) ==> final(
                    self).reservation_map()[k] == old(self).reservation_map()[k]
                &&& ({
                    let res = final(self).reservation_map()[order_id@];
                    &&& res.order_id@ == order_id@
                    &&& res.symbol@ == symbol@
                    &&& res.strategy_id@ == strategy_id@
                    &&& res.frozen_amount == frozen_amount
                    &&& res.status@ == "pending"@
                })
            },
    {
        let now = crate::clock::utc_now_secs();
        self.reserve_at(order_id, symbol, strategy_id, frozen_amount, now)
    }

    /// Removes the order's reservation and, when it was pending, returns its amount and
    /// unfreezes it.
    fn settle(&mut self, order_id: &str) -> (r: Result<Dec, String>)
        requires
            old(self).wf(),
            old(self).reservation_map().dom().contains(order_id@) ==> sum_in_range(
                old(self).total_frozen,
                old(self).reservation_map()[order_id@].frozen_amount,
                -1,
            ),
        ensures
            final(self).wf(),
            final(self).reservation_map() == old(self).reservation_map().remove(order_id@),
            old(self).frozen_matches() && (old(self).reservation_map().dom().contains(order_id@)
                && old(self).reservation_map()[order_id@].status@ == "pending"@ ==> exact_sum(
                old(self).total_frozen,
                old(self).reservation_map()[order_id@].frozen_amount,
                -1,
            )) ==> final(self).frozen_matches(),
            final(self).reservations@.len() == old(self).reservations@.len() - if old(
                self,
            ).reservation_map().dom().contains(order_id@) {
                1int
            } else {
                0int
            },
            final(self).max_position_ratio == old(self).max_position_ratio,
            final(self).min_order_notional == old(self).min_order_notional,
            ({
                let m = old(self).reservation_map();
                let k = order_id@;
                if !m.dom().contains(k) {
                    r is Err && r->Err_0@ == order_text(k, " 没有预占记录"@) && final(self).total_frozen == old(
                        self).total_frozen
                } else if m[k].status@ != "pending"@ {
                    r is Err && r->Err_0@ == order_text(k, " 状态不是 pending"@) && final(self).total_frozen == old(
                        self).total_frozen
                } else {
                    r == Ok::<Dec, String>(m[k].frozen_amount) && final(self).total_frozen == sub_spec(
                        old(self).total_frozen,
                        m[k].frozen_amount,
                    )
                }
            }),
    {
        match find_key(&self.reservations, order_id) {
            None => {
                proof {
                    lemma_to_map_dom(self.reservations@, order_id@);
                    assert(self.reservation_map().remove(order_id@) =~= self.reservation_map());
                }
                Err(order_message(order_id, " 没有预占记录"))
            },
            Some(i) => {
                let ghost s = self.reservations@;
                proof {
                    lemma_to_map_index(s, i as int);
                    lemma_to_map_remove(s, i as int);
                }
                let (_, reservation) = self.reservations.remove(i);
                proof {
                    lemma_pending_total_remove(s, i as int);
                }
                if !str_eq(reservation.status.as_str(), "pending") {
                    return Err(order_message(order_id, " 状态不是 pending"));
                }
                let ghost old_total = self.total_frozen;
                proof {
                    use_type_invariant(&self.total_frozen);
                    use_type_invariant(&reservation.frozen_amount);
                }
                self.total_frozen = self.total_frozen.sub(&reservation.frozen_amount);
                proof {
                    if exact_sum(old_total, reservation.frozen_amount, -1) {
                        lemma_sub_exact(old_total, reservation.frozen_amount);
                    }
                }
                Ok(reservation.frozen_amount)
            },
        }
    }

    /// Confirms a pending reservation after a fill: its amount leaves the frozen total
    /// and is returned.
    pub fn confirm_reservation(&mut self, order_id: &str) -> (r: Result<Dec, String>)
        requires
            old(self).wf(),
            old(self).reservation_map().dom().contains(order_id@) ==> sum_in_range(
                old(self).total_frozen,
                old(self).reservation_map()[order_id@].frozen_amount,
                -1,
            ),
        ensures
            final(self).wf(),
            final(self).reservation_map() == old(self).reservation_map().remove(order_id@),
            old(self).frozen_matches() && (old(self).reservation_map().dom().contains(order_id@)
                && old(self).reservation_map()[order_id@].status@ == "pending"@ ==> exact_sum(
                old(self).total_frozen,
                old(self).reservation_map()[order_id@].frozen_amount,
                -1,
            )) ==> final(self).frozen_matches(),
            final(self).reservations@.len() == old(self).reservations@.len() - if old(
                self,
            ).reservation_map().dom().contains(order_id@) {
                1int
            } else {
                0int
            },
            ({
                let m = old(self).reservation_map();
                let k = order_id@;
                if !m.dom().contains(k) {
                    r is Err && r->Err_0@ == order_text(k, " 没有预占记录"@) && final(self).total_frozen == old(
                        self).total_frozen
                } else if m[k].status@ != "pending"@ {
                    r is Err && r->Err_0@ == order_text(k, " 状态不是 pending"@) && final(self).total_frozen == old(
                        self).total_frozen
                } else {
                    r == Ok::<Dec, String>(m[k].frozen_amount) && final(self).total_frozen == sub_spec(
                        old(self).total_frozen,
                        m[k].frozen_amount,
                    )
                }
            }),
    {
        self.settle(order_id)
    }

    /// Cancels a pending reservation after a failure: its amount is unfrozen and
    /// returned.
    pub fn cancel_reservation(&mut self, order_id: &str) -> (r: Result<Dec, String>)
        requires
            old(self).wf(),
            old(self).reservation_map().dom().contains(order_id@) ==> sum_in_range(
                old(self).total_frozen,
                old(self).reservation_map()[order_id@].frozen_amount,
                -1,
            ),
        ensures
            final(self).wf(),
            final(self).reservation_map() == old(self).reservation_map().remove(order_id@),
            old(self).frozen_matches() && (old(self).reservation_map().dom().contains(order_id@)
                && old(self).reservation_map()[order_id@].status@ == "pending"@ ==> exact_sum(
                old(self).total_frozen,
                old(self).reservation_map()[order_id@].frozen_amount,
                -1,
            )) ==> final(self).frozen_matches(),
            final(self).reservations@.len() == old(self).reservations@.len() - if old(
                self,
            ).reservation_map().dom().contains(order_id@) {
                1int
            } else {
                0int
            },
            ({
                let m = old(self).reservation_map();
                let k = order_id@;
                if !m.dom().contains(k) {
                    r is Err && r->Err_0@ == order_text(k, " 没有预占记录"@) && final(self).total_frozen == old(
                        self).total_frozen
                } else if m[k].status@ != "pending"@ {
                    r is Err && r->Err_0@ == order_text(k, " 状态不是 pending"@) && final(self).total_frozen == old(
                        self).total_frozen
                } else {
                    r == Ok::<Dec, String>(m[k].frozen_amount) && final(self).total_frozen == sub_spec(
                        old(self).total_frozen,
                        m[k].frozen_amount,
                    )
                }
            }),
    {
        self.settle(order_id)
    }

    /// Drops every reservation.
    pub fn release_all(&mut self)
        ensures
            final(self).wf(),
            final(self).reservation_map() == Map::<Seq<char>, OrderReservation>::empty(),
            final(self).total_frozen == Dec::of_parts(0, 0),
            final(self).frozen_matches(),
            final(self).max_position_ratio == old(self).max_position_ratio,
            final(self).min_order_notional == old(self).min_order_notional,
    {
        self.reservations = Vec::new();
        self.total_frozen = Dec::zero();
    }

    pub fn total_frozen(&self) -> (r: Dec)
        ensures
            r == self.total_frozen,
    {
        self.total_frozen.copy()
    }

    pub fn reservation_count(&self) -> (r: usize)
        ensures
            r == self.reservations@.len(),
    {
        self.reservations.len()
    }

    pub fn get_reservation(&self, order_id: &str) -> (r: Option<&OrderReservation>)
        requires
            self.wf(),
        ensures
            r is Some <==> self.reservation_map().dom().contains(order_id@),
            r is Some ==> *r.unwrap() == self.reservation_map()[order_id@],
    {
        match find_key(&self.reservations, order_id) {
            Some(i) => {
                proof {
                    lemma_to_map_index(self.reservations@, i as int);
                }
                Some(&self.reservations[i].1)
            },
            None => {
                proof {
                    lemma_to_map_dom(self.reservations@, order_id@);
                }
                None
            },
        }
    }

    pub fn has_pending_reservations(&self) -> (r: bool)
        ensures
            r == (self.reservations@.len() > 0),
    {
        self.reservations.len() > 0
    }

    pub fn set_max_position_ratio(&mut self, ratio: Dec)
        ensures
            final(self).max_position_ratio == ratio,
            final(self).min_order_notional == old(self).min_order_notional,
            final(self).reservations == old(self).reservations,
            final(self).total_frozen == old(self).total_frozen,
    {
        self.max_position_ratio = ratio;
    }

    pub fn set_min_order_notional(&mut self, notional: Dec)
        ensures
            final(self).min_order_notional == notional,
            final(self).max_position_ratio == old(self).max_position_ratio,
            final(self).reservations == old(self).reservations,
            final(self).total_frozen == old(self).total_frozen,
    {
        self.min_order_notional = notional;
    }

    /// The pending reservations, in order.
    pub fn get_pending_reservations(&self) -> (r: Vec<&OrderReservation>)
        ensures
            r@.len() == pending_of(self.reservations@).len(),
            forall|i: int| 0 <= i < r@.len() ==> *(#[trigger] r@[i]) == pending_of(self.reservations@)[i],
    {
        let mut out: Vec<&OrderReservation> = Vec::new();
        let mut i: usize = 0;
        while i < self.reservations.len()
            invariant
                i <= self.reservations@.len(),
                out@.len() == pending_of(self.reservations@.take(i as int)).len(),
                forall|k: int| 0 <= k < out@.len() ==> *(#[trigger] out@[k]) == pending_of(self.reservations@.take(i as int))[k],
            decreases self.reservations@.len() - i,
        {
            proof {
                assert(self.reservations@.take(i as int + 1).drop_last() =~= self.reservations@.take(i as int));
            }
            let res = &self.reservations[i].1;
            if str_eq(res.status.as_str(), "pending") {
                out.push(res);
            }
            i = i + 1;
        }
        proof {
            assert(self.reservations@.take(i as int) =~= self.reservations@);
        }
        out
    }
}

impl Default for OrderCheck {
    fn default() -> (r: OrderCheck)
        ensures
            r.wf(),
            r.total_frozen == Dec::of_parts(0, 0),
            r.frozen_matches(),
    {
        OrderCheck::new()
    }
}

/// Redis scripts for atomic reservation.
pub struct LuaScriptExecutor;

impl LuaScriptExecutor {
    /// Takes `amount` from the key when that much is there, else returns -1.
    pub fn atomic_reserve_script() -> (r: &'static str)
        ensures
            r@ == "\nlocal key = KEYS[1]\nlocal amount = tonumber(ARGV[1])\nlocal available = tonumber(redis.call('GET', key) or '0')\nif available >= amount then\n    redis.call('DECRBY', key, amount)\n    return amount\nelse\n    return -1\nend\n"@,
    {
        "\nlocal key = KEYS[1]\nlocal amount = tonumber(ARGV[1])\nlocal available = tonumber(redis.call('GET', key) or '0')\nif available >= amount then\n    redis.call('DECRBY', key, amount)\n    return amount\nelse\n    return -1\nend\n"
    }

    /// Gives `amount` back to the key.
    pub fn atomic_release_script() -> (r: &'static str)
        ensures
            r@ == "\nlocal key = KEYS[1]\nlocal amount = tonumber(ARGV[1])\nredis.call('INCRBY', key, amount)\nreturn amount\n"@,
    {
        "\nlocal key = KEYS[1]\nlocal amount = tonumber(ARGV[1])\nredis.call('INCRBY', key, amount)\nreturn amount\n"
    }
}

/// There is one reservation per reserved order id: the count is the number of ids.
pub proof fn lemma_count_is_ids(c: OrderCheck)
    requires
        c.wf(),
    ensures
        c.reservations@.len() == c.reservation_map().dom().len(),
{
    crate::keyed::lemma_to_map_len(c.reservations@);
}

/// Reserving an order and then cancelling (or confirming) it gives back the
/// reservations as they were, and the frozen total by value whenever neither step
/// rounds.
pub proof fn lemma_reserve_then_settle_restores(
    before: Map<Seq<char>, OrderReservation>,
    reserved: Map<Seq<char>, OrderReservation>,
    order_id: Seq<char>,
    total: Dec,
    amount: Dec,
)
    requires
        total.wf(),
        amount.wf(),
        !before.dom().contains(order_id),
        reserved.dom() == before.dom().insert(order_id),
        forall|k: Seq<char>| k != order_id && before.dom().contains(k) ==> reserved[k] == before[k],
        exact_sum(total, amount, 1),
        exact_sum(add_spec(total, amount), amount, -1),
    ensures
        reserved.remove(order_id) == before,
        sub_spec(add_spec(total, amount), amount).val() == total.val(),
{
    assert(reserved.remove(order_id) =~= before);
    lemma_add_exact(total, amount);
    lemma_sub_exact(add_spec(total, amount), amount);
}

} // verus!
