//! The account margin pool, with a circuit breaker on cumulative losses.
use vstd::prelude::*;
use crate::decimal::{exact_sum, lemma_add_exact, lemma_sub_exact};
use crate::decimal::{
    Dec, pow10, add_spec, sub_spec, mul_spec, div_spec, neg_spec, min_spec, sum_in_range, product_in_range,
    quotient_in_range,
};
use crate::engine::margin_config::StrategyLevel;

verus! {

/// Circuit breaker state of the account.
#[derive(Debug, Clone, Copy, PartialEq, Eq, Structural)]
pub enum CircuitBreakerState {
    Normal,
    /// Opening is limited: only half of the funds may be used.
    Partial,
    /// No trading at all.
    Full,
}

/// The account's funds.
#[derive(Debug, Clone)]
pub struct AccountInfo {
    pub account_id: String,
    pub total_equity: Dec,
    pub available: Dec,
    pub margin_used: Dec,
    pub frozen: Dec,
    pub cumulative_profit: Dec,
    pub circuit_state: CircuitBreakerState,
}

impl Default for AccountInfo {
    /// An empty account named "default".
    fn default() -> (r: AccountInfo)
        ensures
            r.account_id@ == "default"@,
            r.total_equity == Dec::of_parts(0, 0),
            r.available == Dec::of_parts(0, 0),
            r.margin_used == Dec::of_parts(0, 0),
            r.frozen == Dec::of_parts(0, 0),
            r.cumulative_profit == Dec::of_parts(0, 0),
            r.circuit_state == CircuitBreakerState::Normal,
    {
        AccountInfo {
            account_id: "default".to_string(),
            total_equity: Dec::zero(),
            available: Dec::zero(),
            margin_used: Dec::zero(),
            frozen: Dec::zero(),
            cumulative_profit: Dec::zero(),
            circuit_state: CircuitBreakerState::Normal,
        }
    }
}

impl AccountInfo {
    /// A fresh account holding `balance`.
    fn funded(balance: &Dec) -> (r: AccountInfo)
        ensures
            r.account_id@ == "default"@,
            r.total_equity == *balance,
            r.available == *balance,
            r.margin_used == Dec::of_parts(0, 0),
            r.frozen == Dec::of_parts(0, 0),
            r.cumulative_profit == Dec::of_parts(0, 0),
            r.circuit_state == CircuitBreakerState::Normal,
    {
        AccountInfo {
            account_id: "default".to_string(),
            total_equity: balance.copy(),
            available: balance.copy(),
            margin_used: Dec::zero(),
            frozen: Dec::zero(),
            cumulative_profit: Dec::zero(),
            circuit_state: CircuitBreakerState::Normal,
        }
    }
}

/// What a strategy level may use of the account's margin.
#[derive(Debug, Clone)]
pub struct AccountMargin {
    pub effective_margin: Dec,
    pub total_available_margin: Dec,
}

/// The account's margin, with circuit-breaker thresholds on the loss ratio.
pub struct AccountPool {
    pub account: AccountInfo,
    pub initial_balance: Dec,
    pub circuit_threshold: Dec,
    pub partial_circuit_threshold: Dec,
    pub recovery_threshold: Dec,
    pub circuit_cooldown_secs: i64,
    pub last_circuit_ts: i64,
}

/// Loss as a share of the initial balance: `-profit / initial`, zero without a
/// positive initial balance.
pub open spec fn loss_ratio_spec(profit: Dec, initial: Dec) -> Dec {
    if initial.val() > 0 {
        div_spec(neg_spec(profit), initial)
    } else {
        Dec::of_parts(0, 0)
    }
}

/// The loss ratio can be computed.
pub open spec fn loss_ratio_ok(profit: Dec, initial: Dec) -> bool {
    initial.val() > 0 ==> quotient_in_range(neg_spec(profit), initial)
}

/// The breaker state after a loss ratio `lr` was seen outside the cooldown: full at
/// the circuit threshold, partial at the partial threshold, back to normal once the
/// profit reaches the recovery threshold, else unchanged.
pub open spec fn next_circuit_state(p: AccountPool, lr: Dec) -> CircuitBreakerState {
    let old_state = p.account.circuit_state;
    if lr.val() >= p.circuit_threshold.val() {
        CircuitBreakerState::Full
    } else if lr.val() >= p.partial_circuit_threshold.val() {
        CircuitBreakerState::Partial
    } else if lr.val() <= -p.recovery_threshold.val() && old_state != CircuitBreakerState::Normal {
        CircuitBreakerState::Normal
    } else {
        old_state
    }
}

/// Entering full or partial from another state stamps the breaker time.
pub open spec fn stamps_circuit(p: AccountPool, lr: Dec) -> bool {
    let old_state = p.account.circuit_state;
    (lr.val() >= p.circuit_threshold.val() && old_state != CircuitBreakerState::Full) || (lr.val()
        < p.circuit_threshold.val() && lr.val() >= p.partial_circuit_threshold.val() && old_state
        != CircuitBreakerState::Partial)
}

/// What `update_equity` needs to compute without overflow.
pub open spec fn update_equity_ok(p: AccountPool, pnl: Dec, ts: i64) -> bool {
    let profit = add_spec(p.account.cumulative_profit, pnl);
    &&& sum_in_range(p.account.cumulative_profit, pnl, 1)
    &&& sum_in_range(p.initial_balance, profit, 1)
    &&& sum_in_range(p.account.available, pnl, 1)
    &&& loss_ratio_ok(profit, p.initial_balance)
    &&& i64::MIN <= ts - p.last_circuit_ts <= i64::MAX
}

impl AccountPool {
    /// 100000 of initial funds; full breaker at 20 % loss, partial at 10 %, recovery
    /// at 5 % profit, 300 s cooldown.
    pub fn new() -> (r: AccountPool)
        ensures
            r.initial_balance == Dec::int_dec(100000) && r.initial_balance.val() == 100000 * pow10(28),
            r.account.total_equity == r.initial_balance,
            r.account.available == r.initial_balance,
            r.account.margin_used == Dec::of_parts(0, 0),
            r.account.frozen == Dec::of_parts(0, 0),
            r.account.cumulative_profit == Dec::of_parts(0, 0),
            r.account.circuit_state == CircuitBreakerState::Normal,
            r.circuit_threshold.mant() == 20 && r.circuit_threshold.scl() == 2,
            r.partial_circuit_threshold.mant() == 10 && r.partial_circuit_threshold.scl() == 2,
            r.recovery_threshold.mant() == 5 && r.recovery_threshold.scl() == 2,
            r.circuit_cooldown_secs == 300,
            r.last_circuit_ts == 0,
    {
        let initial = Dec::from_int(100000);
        AccountPool {
            account: AccountInfo::funded(&initial),
            initial_balance: initial,
            circuit_threshold: Dec::new(20, 2),
            partial_circuit_threshold: Dec::new(10, 2),
            recovery_threshold: Dec::new(5, 2),
            circuit_cooldown_secs: 300,
            last_circuit_ts: 0,
        }
    }

    /// A pool with the given funds and thresholds; recovery at a quarter of the
    /// circuit threshold.
    pub fn with_config(initial_balance: Dec, circuit_threshold: Dec, partial_circuit_threshold: Dec) -> (r: AccountPool)
        requires
            quotient_in_range(circuit_threshold, Dec::of_parts(4, 0)),
        ensures
            r.initial_balance == initial_balance,
            r.account.total_equity == initial_balance,
            r.account.available == initial_balance,
            r.account.margin_used == Dec::of_parts(0, 0),
            r.account.frozen == Dec::of_parts(0, 0),
            r.account.cumulative_profit == Dec::of_parts(0, 0),
            r.account.circuit_state == CircuitBreakerState::Normal,
            r.circuit_threshold == circuit_threshold,
            r.partial_circuit_threshold == partial_circuit_threshold,
            r.recovery_threshold == div_spec(circuit_threshold, Dec::of_parts(4, 0)),
            r.circuit_cooldown_secs == 300,
            r.last_circuit_ts == 0,
    {
        let four = Dec::from_int(4);
        proof {
            Dec::lemma_of_parts(4, 0);
            Dec::lemma_parts_eq(four, Dec::of_parts(4, 0));
        }
        let recovery = circuit_threshold.div(&four);
        AccountPool {
            account: AccountInfo::funded(&initial_balance),
            initial_balance,
            circuit_threshold,
            partial_circuit_threshold,
            recovery_threshold: recovery,
            circuit_cooldown_secs: 300,
            last_circuit_ts: 0,
        }
    }

    pub fn account(&self) -> (r: &AccountInfo)
        ensures
            *r == self.account,
    {
        &self.account
    }

    pub fn available(&self) -> (r: Dec)
        ensures
            r == self.account.available,
    {
        self.account.available.copy()
    }

    pub fn total_equity(&self) -> (r: Dec)
        ensures
            r == self.account.total_equity,
    {
        self.account.total_equity.copy()
    }

    pub fn circuit_state(&self) -> (r: CircuitBreakerState)
        ensures
            r == self.account.circuit_state,
    {
        self.account.circuit_state
    }

    /// Whether `required_margin` may be committed: never under a full breaker; under
    /// a partial one only with twice the amount available.
    pub fn can_trade(&self, required_margin: Dec) -> (r: bool)
        requires
            self.account.circuit_state == CircuitBreakerState::Partial ==> product_in_range(
                required_margin,
                Dec::of_parts(2, 0),
            ),
        ensures
            r == match self.account.circuit_state {
                CircuitBreakerState::Full => false,
                CircuitBreakerState::Partial => self.account.available.val() >= mul_spec(
                    required_margin,
                    Dec::of_parts(2, 0),
                ).val(),
                CircuitBreakerState::Normal => self.account.available.val() >= required_margin.val(),
            },
    {
        if self.account.circuit_state == CircuitBreakerState::Full {
            return false;
        }
        if self.account.circuit_state == CircuitBreakerState::Partial {
            let two = Dec::from_int(2);
            proof {
                Dec::lemma_of_parts(2, 0);
                Dec::lemma_parts_eq(two, Dec::of_parts(2, 0));
            }
            return self.account.available.ge(&required_margin.mul(&two));
        }
        self.account.available.ge(&required_margin)
    }

    /// The margin that may actually be used: nothing under a full breaker, half under
    /// a partial one.
    pub fn available_margin(&self) -> (r: Dec)
        requires
            self.account.circuit_state == CircuitBreakerState::Partial ==> quotient_in_range(
                self.account.available,
                Dec::of_parts(2, 0),
            ),
        ensures
            r == match self.account.circuit_state {
                CircuitBreakerState::Full => Dec::of_parts(0, 0),
                CircuitBreakerState::Partial => div_spec(self.account.available, Dec::of_parts(2, 0)),
                CircuitBreakerState::Normal => self.account.available,
            },
    {
        match self.account.circuit_state {
            CircuitBreakerState::Full => {
                proof {
                    Dec::lemma_of_parts(0, 0);
                }
                let z = Dec::zero();
                proof {
                    Dec::lemma_parts_eq(z, Dec::of_parts(0, 0));
                }
                z
            },
            CircuitBreakerState::Partial => {
                let two = Dec::from_int(2);
                proof {
                    Dec::lemma_of_parts(2, 0);
                    Dec::lemma_parts_eq(two, Dec::of_parts(2, 0));
                }
                self.account.available.div(&two)
            },
            CircuitBreakerState::Normal => self.account.available.copy(),
        }
    }

    /// Moves `amount` from available to frozen; fails when not that much is
    /// available.
    pub fn freeze(&mut self, amount: Dec) -> (r: Result<(), String>)
        requires
            amount.val() <= old(self).account.available.val() ==> sum_in_range(
                old(self).account.available,
                amount,
                -1,
            ) && sum_in_range(old(self).account.frozen, amount, 1),
        ensures
            amount.val() > old(self).account.available.val() ==> r is Err && r->Err_0@ == "可用资金不足"@
                && final(self).account == old(self).account,
            amount.val() <= old(self).account.available.val() ==> r is Ok && final(self).account
                == (AccountInfo {
                available: sub_spec(old(self).account.available, amount),
                frozen: add_spec(old(self).account.frozen, amount),
                ..old(self).account
            }),
            final(self).initial_balance == old(self).initial_balance,
            final(self).last_circuit_ts == old(self).last_circuit_ts,
    {
        if amount.gt(&self.account.available) {
            return Err("可用资金不足".to_string());
        }
        self.account.available = self.account.available.sub(&amount);
        self.account.frozen = self.account.frozen.add(&amount);
        Ok(())
    }

    /// Moves up to `amount` (no more than is frozen) back to available.
    pub fn unfreeze(&mut self, amount: Dec)
        requires
            sum_in_range(old(self).account.available, min_spec(amount, old(self).account.frozen), 1),
            sum_in_range(old(self).account.frozen, min_spec(amount, old(self).account.frozen), -1),
        ensures
            ({
                let moved = min_spec(amount, old(self).account.frozen);
                final(self).account == (AccountInfo {
                    available: add_spec(old(self).account.available, moved),
                    frozen: sub_spec(old(self).account.frozen, moved),
                    ..old(self).account
                })
            }),
            final(self).initial_balance == old(self).initial_balance,
            final(self).last_circuit_ts == old(self).last_circuit_ts,
    {
        let to_unfreeze = amount.min(&self.account.frozen);
        self.account.available = self.account.available.add(&to_unfreeze);
        self.account.frozen = self.account.frozen.sub(&to_unfreeze);
    }

    /// Moves `amount` from frozen to used margin after a fill; fails when not that much
    /// is frozen.
    pub fn deduct_margin(&mut self, amount: Dec) -> (r: Result<(), String>)
        requires
            amount.val() <= old(self).account.frozen.val() ==> sum_in_range(old(self).account.frozen, amount, -1)
                && sum_in_range(old(self).account.margin_used, amount, 1),
        ensures
            amount.val() > old(self).account.frozen.val() ==> r is Err && r->Err_0@ == "冻结资金不足"@
                && final(self).account == old(self).account,
            amount.val() <= old(self).account.frozen.val() ==> r is Ok && final(self).account
                == (AccountInfo {
                frozen: sub_spec(old(self).account.frozen, amount),
                margin_used: add_spec(old(self).account.margin_used, amount),
                ..old(self).account
            }),
            final(self).initial_balance == old(self).initial_balance,
            final(self).last_circuit_ts == old(self).last_circuit_ts,
    {
        if amount.gt(&self.account.frozen) {
            return Err("冻结资金不足".to_string());
        }
        self.account.frozen = self.account.frozen.sub(&amount);
        self.account.margin_used = self.account.margin_used.add(&amount);
        Ok(())
    }

    /// Moves up to `amount` (no more than is used) from used margin back to available
    /// after a close.
    pub fn release_margin(&mut self, amount: Dec)
        requires
            sum_in_range(old(self).account.margin_used, min_spec(amount, old(self).account.margin_used), -1),
            sum_in_range(old(self).account.available, min_spec(amount, old(self).account.margin_used), 1),
        ensures
            ({
                let moved = min_spec(amount, old(self).account.margin_used);
                final(self).account == (AccountInfo {
                    margin_used: sub_spec(old(self).account.margin_used, moved),
                    available: add_spec(old(self).account.available, moved),
                    ..old(self).account
                })
            }),
            final(self).initial_balance == old(self).initial_balance,
            final(self).last_circuit_ts == old(self).last_circuit_ts,
    {
        let to_release = amount.min(&self.account.margin_used);
        self.account.margin_used = self.account.margin_used.sub(&to_release);
        self.account.available = self.account.available.add(&to_release);
    }

    fn compute_loss_ratio(profit: &Dec, initial: &Dec) -> (r: Dec)
        requires
            loss_ratio_ok(*profit, *initial),
        ensures
            r == loss_ratio_spec(*profit, *initial),
    {
        if initial.gt(&Dec::zero()) {
            profit.neg().div(initial)
        } else {
            proof {
                Dec::lemma_of_parts(0, 0);
            }
            let z = Dec::zero();
            proof {
                Dec::lemma_parts_eq(z, Dec::of_parts(0, 0));
            }
            z
        }
    }

    /// Books a realized profit or loss at `current_ts`: profit, equity and available
    /// funds move; outside the cooldown the breaker follows the loss ratio.
    pub fn update_equity(&mut self, realized_pnl: Dec, current_ts: i64)
        requires
            update_equity_ok(*old(self), realized_pnl, current_ts),
        ensures
            ({
                let o = *old(self);
                let profit = add_spec(o.account.cumulative_profit, realized_pnl);
                let lr = loss_ratio_spec(profit, o.initial_balance);
                let outside = current_ts - o.last_circuit_ts >= o.circuit_cooldown_secs;
                &&& final(self).account.cumulative_profit == profit
                &&& final(self).account.total_equity == add_spec(o.initial_balance, profit)
                &&& final(self).account.available == add_spec(o.account.available, realized_pnl)
                &&& final(self).account.margin_used == o.account.margin_used
                &&& final(self).account.frozen == o.account.frozen
                &&& final(self).account.account_id == o.account.account_id
                &&& final(self).account.circuit_state == (if outside {
                    next_circuit_state(o, lr)
                } else {
                    o.account.circuit_state
                })
                &&& o.account.circuit_state != CircuitBreakerState::Normal && final(self).account.circuit_state
                    == CircuitBreakerState::Normal ==> lr.val() <= -o.recovery_threshold.val()
                &&& final(self).last_circuit_ts == (if outside && stamps_circuit(o, lr) {
                    current_ts
                } else {
                    o.last_circuit_ts
                })
            }),
            final(self).initial_balance == old(self).initial_balance,
            final(self).circuit_threshold == old(self).circuit_threshold,
            final(self).partial_circuit_threshold == old(self).partial_circuit_threshold,
            final(self).recovery_threshold == old(self).recovery_threshold,
            final(self).circuit_cooldown_secs == old(self).circuit_cooldown_secs,
    {
        self.account.cumulative_profit = self.account.cumulative_profit.add(&realized_pnl);
        self.account.total_equity = self.initial_balance.add(&self.account.cumulative_profit);
        self.account.available = self.account.available.add(&realized_pnl);
        let loss_ratio = AccountPool::compute_loss_ratio(&self.account.cumulative_profit, &self.initial_balance);
        if current_ts - self.last_circuit_ts >= self.circuit_cooldown_secs {
            let old_state = self.account.circuit_state;
            if loss_ratio.ge(&self.circuit_threshold) {
                self.account.circuit_state = CircuitBreakerState::Full;
                if old_state != CircuitBreakerState::Full {
                    self.last_circuit_ts = current_ts;
                }
            } else if loss_ratio.ge(&self.partial_circuit_threshold) {
                self.account.circuit_state = CircuitBreakerState::Partial;
                if old_state != CircuitBreakerState::Partial {
                    self.last_circuit_ts = current_ts;
                }
            } else if loss_ratio.le(&self.recovery_threshold.neg()) && old_state != CircuitBreakerState::Normal {
                self.account.circuit_state = CircuitBreakerState::Normal;
            }
        }
    }

    /// Clears the breaker.
    pub fn reset_circuit(&mut self)
        ensures
            final(self).account == (AccountInfo {
                circuit_state: CircuitBreakerState::Normal,
                ..old(self).account
            }),
            final(self).last_circuit_ts == 0,
            final(self).initial_balance == old(self).initial_balance,
    {
        self.account.circuit_state = CircuitBreakerState::Normal;
        self.last_circuit_ts = 0;
    }

    pub fn margin_used(&self) -> (r: Dec)
        ensures
            r == self.account.margin_used,
    {
        self.account.margin_used.copy()
    }

    pub fn cumulative_profit(&self) -> (r: Dec)
        ensures
            r == self.account.cumulative_profit,
    {
        self.account.cumulative_profit.copy()
    }

    /// Loss as a share of the initial balance.
    pub fn loss_ratio(&self) -> (r: Dec)
        requires
            loss_ratio_ok(self.account.cumulative_profit, self.initial_balance),
        ensures
            r == loss_ratio_spec(self.account.cumulative_profit, self.initial_balance),
    {
        AccountPool::compute_loss_ratio(&self.account.cumulative_profit, &self.initial_balance)
    }

    /// Restores the account to its initial funds (the breaker time stays).
    pub fn reset(&mut self)
        ensures
            final(self).account.account_id@ == "default"@,
            final(self).account.total_equity == old(self).initial_balance,
            final(self).account.available == old(self).initial_balance,
            final(self).account.margin_used == Dec::of_parts(0, 0),
            final(self).account.frozen == Dec::of_parts(0, 0),
            final(self).account.cumulative_profit == Dec::of_parts(0, 0),
            final(self).account.circuit_state == CircuitBreakerState::Normal,
            final(self).initial_balance == old(self).initial_balance,
            final(self).last_circuit_ts == old(self).last_circuit_ts,
    {
        self.account = AccountInfo::funded(&self.initial_balance);
    }

    /// Sets the initial funds; equity and available funds take the amount.
    pub fn set_initial_balance(&mut self, amount: Dec)
        ensures
            final(self).initial_balance == amount,
            final(self).account == (AccountInfo {
                total_equity: amount,
                available: amount,
                ..old(self).account
            }),
            final(self).last_circuit_ts == old(self).last_circuit_ts,
    {
        self.initial_balance = amount.copy();
        self.account.total_equity = amount.copy();
        self.account.available = amount;
    }

    /// The margin of a strategy level: the effective margin is the account's equity,
    /// of which 80 % is available.
    pub fn get_account_margin(&self, level: StrategyLevel) -> (r: AccountMargin)
        requires
            product_in_range(self.account.total_equity, Dec::of_parts(8, 1)),
        ensures
            r.effective_margin == self.account.total_equity,
            r.total_available_margin == mul_spec(self.account.total_equity, Dec::of_parts(8, 1)),
    {
        let ratio = Dec::new(8, 1);
        proof {
            Dec::lemma_of_parts(8, 1);
            Dec::lemma_parts_eq(ratio, Dec::of_parts(8, 1));
        }
        AccountMargin {
            effective_margin: self.account.total_equity.copy(),
            total_available_margin: self.account.total_equity.mul(&ratio),
        }
    }
}

impl Default for AccountPool {
    fn default() -> (r: AccountPool)
        ensures
            r.initial_balance == Dec::int_dec(100000) && r.initial_balance.val() == 100000 * pow10(28),
            r.account.available == r.initial_balance,
            r.account.circuit_state == CircuitBreakerState::Normal,
    {
        AccountPool::new()
    }
}

/// Freezing an amount that is available and unfreezing it again gives back the
/// available and frozen funds, by value, whenever neither step rounds.
pub proof fn lemma_freeze_unfreeze_restores(acct: AccountInfo, amount: Dec)
    requires
        acct.available.wf(),
        acct.frozen.wf(),
        amount.wf(),
        0 <= amount.val() <= acct.available.val(),
        acct.frozen.val() >= 0,
        exact_sum(acct.available, amount, -1),
        exact_sum(acct.frozen, amount, 1),
        exact_sum(sub_spec(acct.available, amount), amount, 1),
        exact_sum(add_spec(acct.frozen, amount), amount, -1),
    ensures
        ({
            let available1 = sub_spec(acct.available, amount);
            let frozen1 = add_spec(acct.frozen, amount);
            let moved = min_spec(amount, frozen1);
            &&& add_spec(available1, moved).val() == acct.available.val()
            &&& sub_spec(frozen1, moved).val() == acct.frozen.val()
        }),
{
    lemma_sub_exact(acct.available, amount);
    lemma_add_exact(acct.frozen, amount);
    let available1 = sub_spec(acct.available, amount);
    let frozen1 = add_spec(acct.frozen, amount);
    assert(min_spec(amount, frozen1) == amount);
    lemma_add_exact(available1, amount);
    lemma_sub_exact(frozen1, amount);
}

/// A larger loss never leaves the breaker in a milder state: from the same pool,
/// once the loss ratio reaches the partial threshold, a larger ratio gives a state
/// at least as severe.
pub proof fn lemma_circuit_monotone(p: AccountPool, lr1: Dec, lr2: Dec)
    requires
        p.partial_circuit_threshold.val() <= p.circuit_threshold.val(),
        lr1.val() <= lr2.val(),
        lr1.val() >= p.partial_circuit_threshold.val(),
    ensures
        severity(next_circuit_state(p, lr1)) <= severity(next_circuit_state(p, lr2)),
        severity(next_circuit_state(p, lr1)) >= 1,
{
}

/// A tripped breaker comes back to normal only on a profit: after a loss ratio `lr`
/// outside the cooldown, a partial or full breaker is normal again only when `lr` is
/// at most minus the recovery threshold, and below the partial threshold it stays as
/// it was while `lr` is above that.  With a non-negative recovery threshold, any loss
/// (a positive loss ratio) keeps a tripped breaker tripped.
pub proof fn lemma_recovery_needs_profit(p: AccountPool, lr: Dec)
    ensures
        p.account.circuit_state != CircuitBreakerState::Normal && next_circuit_state(p, lr)
            == CircuitBreakerState::Normal ==> lr.val() <= -p.recovery_threshold.val(),
        lr.val() > -p.recovery_threshold.val() && lr.val() < p.partial_circuit_threshold.val() && lr.val()
            < p.circuit_threshold.val() ==> next_circuit_state(p, lr) == p.account.circuit_state,
        p.recovery_threshold.val() >= 0 && lr.val() > 0 && p.account.circuit_state != CircuitBreakerState::Normal
            ==> next_circuit_state(p, lr) != CircuitBreakerState::Normal,
{
}

/// The breaker trips on losses: it is full exactly when the loss ratio reaches the
/// circuit threshold, and partial whenever the ratio reaches the partial threshold
/// but not the circuit threshold.
pub proof fn lemma_breaker_trips(p: AccountPool, lr: Dec)
    ensures
        (next_circuit_state(p, lr) == CircuitBreakerState::Full) == (lr.val() >= p.circuit_threshold.val() || (
        p.account.circuit_state == CircuitBreakerState::Full && lr.val() < p.partial_circuit_threshold.val()
            && lr.val() > -p.recovery_threshold.val())),
        lr.val() >= p.partial_circuit_threshold.val() && lr.val() < p.circuit_threshold.val() ==> next_circuit_state(
            p,
            lr,
        ) == CircuitBreakerState::Partial,
{
}

/// In terms of the profit itself, where the loss ratio divides exactly: a tripped
/// breaker is normal again only when the cumulative profit is at least the recovery
/// threshold times the initial balance.
pub proof fn lemma_recovery_profit(p: AccountPool, profit: Dec)
    requires
        profit.wf(),
        p.initial_balance.wf(),
        p.initial_balance.val() > 0,
        crate::decimal::exact_quotient(neg_spec(profit), p.initial_balance),
        p.account.circuit_state != CircuitBreakerState::Normal,
        next_circuit_state(p, loss_ratio_spec(profit, p.initial_balance)) == CircuitBreakerState::Normal,
    ensures
        profit.val() * pow10(28) >= p.recovery_threshold.val() * p.initial_balance.val(),
{
    let n = neg_spec(profit);
    profit.lemma_val_sign();
    Dec::lemma_of_parts(-profit.mant(), profit.scl());
    assert(n.val() == -profit.val());
    crate::decimal::lemma_div_value(n, p.initial_balance);
    let lr = loss_ratio_spec(profit, p.initial_balance);
    lemma_recovery_needs_profit(p, lr);
    assert(lr.val() * p.initial_balance.val() == -profit.val() * pow10(28));
    assert(lr.val() * p.initial_balance.val() <= -p.recovery_threshold.val() * p.initial_balance.val())
        by (nonlinear_arith)
        requires
            lr.val() <= -p.recovery_threshold.val(),
            p.initial_balance.val() > 0,
    ;
    assert(profit.val() * pow10(28) >= p.recovery_threshold.val() * p.initial_balance.val()) by (nonlinear_arith)
        requires
            lr.val() * p.initial_balance.val() == -profit.val() * pow10(28),
            lr.val() * p.initial_balance.val() <= -p.recovery_threshold.val() * p.initial_balance.val(),
    ;
}

/// How severe a breaker state is: normal 0, partial 1, full 2.
pub open spec fn severity(s: CircuitBreakerState) -> int {
    match s {
        CircuitBreakerState::Normal => 0,
        CircuitBreakerState::Partial => 1,
        CircuitBreakerState::Full => 2,
    }
}

} // verus!
