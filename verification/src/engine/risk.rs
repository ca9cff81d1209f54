//! Pre-trade risk checks: registered symbols, volatility mode, reserve balance and
//! position ratio.
use vstd::prelude::*;
use crate::decimal::{Dec, rd_text, div_spec, quotient_in_range};
use crate::engine::error::{EngineError, engine_error_kind};
use crate::keyed::{name_seq, find_name, insert_name};
use crate::text::with_amount;

verus! {

/// Market volatility as it affects trading.
#[derive(Debug, Clone, Copy, PartialEq, Eq, Structural)]
pub enum VolatilityMode {
    /// Trading allowed.
    Normal,
    /// Positions halved.
    High,
    /// No trading.
    Extreme,
}

impl Default for VolatilityMode {
    fn default() -> (r: VolatilityMode)
        ensures
            r == VolatilityMode::Normal,
    {
        VolatilityMode::Normal
    }
}

/// Checks an order before it is placed.
#[derive(Debug, Clone)]
pub struct RiskPreChecker {
    pub max_position_ratio: Dec,
    pub min_reserve_balance: Dec,
    pub registered_symbols: Vec<String>,
    pub volatility_mode: VolatilityMode,
}

/// `a / b` in text with the two amounts: prefix + a + middle + b.
pub open spec fn two_texts(prefix: Seq<char>, a: Dec, middle: Seq<char>, b: Dec) -> Seq<char> {
    prefix + rd_text(a.mant(), a.scl()) + middle + rd_text(b.mant(), b.scl())
}

pub(crate) fn two_amounts(prefix: &str, a: &Dec, middle: &str, b: &Dec) -> (r: String)
    ensures
        r@ == two_texts(prefix@, *a, middle@, *b),
{
    let mut s = with_amount(prefix, a);
    let t = with_amount(middle, b);
    s.append(t.as_str());
    s
}

/// The kind of error the pre-check fails with (see `engine_error_kind`), or `None`.
pub open spec fn pre_check_error(c: RiskPreChecker, symbol: Seq<char>, available: Dec, value: Dec, equity: Dec) -> Option<int> {
    let ratio = div_spec(value, equity);
    let half = div_spec(c.max_position_ratio, Dec::of_parts(2, 0));
    if c.registered_symbols@.len() > 0 && !name_seq(c.registered_symbols@).contains(symbol) {
        Some(0)
    } else {
        match c.volatility_mode {
            VolatilityMode::Extreme => Some(0),
            VolatilityMode::High => if ratio.val() > half.val() {
                Some(4)
            } else {
                None
            },
            VolatilityMode::Normal => if available.val() < c.min_reserve_balance.val() {
                Some(3)
            } else if ratio.val() > c.max_position_ratio.val() {
                Some(4)
            } else {
                None
            },
        }
    }
}

/// The message of the pre-check's failure.
pub open spec fn pre_check_message(c: RiskPreChecker, symbol: Seq<char>, available: Dec, value: Dec, equity: Dec) -> Seq<char> {
    let ratio = div_spec(value, equity);
    let half = div_spec(c.max_position_ratio, Dec::of_parts(2, 0));
    if c.registered_symbols@.len() > 0 && !name_seq(c.registered_symbols@).contains(symbol) {
        "品种 "@ + symbol + " 未注册"@
    } else {
        match c.volatility_mode {
            VolatilityMode::Extreme => "极端波动模式，禁止所有交易"@,
            VolatilityMode::High => two_texts("高波动模式: 订单金额/总权益 "@, ratio, " 超过调整后的最大比例 "@, half),
            VolatilityMode::Normal => if available.val() < c.min_reserve_balance.val() {
                two_texts("可用资金 "@, available, " 小于最低保留 "@, c.min_reserve_balance)
            } else {
                two_texts("订单金额/总权益 "@, ratio, " 超过最大比例 "@, c.max_position_ratio)
            },
        }
    }
}

impl RiskPreChecker {
    /// No symbol appears twice.
    pub open spec fn wf(self) -> bool {
        name_seq(self.registered_symbols@).no_duplicates()
    }

    pub fn new(max_position_ratio: Dec, min_reserve_balance: Dec) -> (r: RiskPreChecker)
        ensures
            r.wf(),
            r.max_position_ratio == max_position_ratio,
            r.min_reserve_balance == min_reserve_balance,
            r.registered_symbols@.len() == 0,
            r.volatility_mode == VolatilityMode::Normal,
    {
        let r = RiskPreChecker {
            max_position_ratio,
            min_reserve_balance,
            registered_symbols: Vec::new(),
            volatility_mode: VolatilityMode::Normal,
        };
        proof {
            assert(name_seq(r.registered_symbols@) =~= Seq::<Seq<char>>::empty());
        }
        r
    }

    /// Allows a symbol.
    pub fn register_symbol(&mut self, symbol: String)
        requires
            old(self).wf(),
        ensures
            final(self).wf(),
            forall|x: Seq<char>| name_seq(final(self).registered_symbols@).contains(x) <==> (name_seq(
                old(self).registered_symbols@,
            ).contains(x) || x == symbol@),
            final(self).volatility_mode == old(self).volatility_mode,
            final(self).max_position_ratio == old(self).max_position_ratio,
            final(self).min_reserve_balance == old(self).min_reserve_balance,
    {
        insert_name(&mut self.registered_symbols, symbol);
    }

    pub fn set_volatility_mode(&mut self, mode: VolatilityMode)
        ensures
            final(self).volatility_mode == mode,
            final(self).registered_symbols == old(self).registered_symbols,
            final(self).max_position_ratio == old(self).max_position_ratio,
            final(self).min_reserve_balance == old(self).min_reserve_balance,
    {
        self.volatility_mode = mode;
    }

    /// Checks in order: the symbol is registered (when any is); extreme volatility
    /// refuses all; high volatility allows at most half the position ratio; otherwise
    /// the available balance must keep the reserve and the ratio stay within the
    /// maximum.
    pub fn pre_check(&self, symbol: &str, available_balance: Dec, order_value: Dec, total_equity: Dec) -> (r: Result<(), EngineError>)
        requires
            quotient_in_range(self.max_position_ratio, Dec::of_parts(2, 0)),
            quotient_in_range(order_value, total_equity),
        ensures
            match pre_check_error(*self, symbol@, available_balance, order_value, total_equity) {
                Some(kind) => r is Err && engine_error_kind(r->Err_0) == kind && r->Err_0.detail() == pre_check_message(
                    *self,
                    symbol@,
                    available_balance,
                    order_value,
                    total_equity,
                ),
                None => r is Ok,
            },
    {
        if self.registered_symbols.len() > 0 {
            match find_name(&self.registered_symbols, symbol) {
                None => {
                    let mut s = "品种 ".to_string();
                    s.append(symbol);
                    s.append(" 未注册");
                    return Err(EngineError::RiskCheckFailed(s));
                },
                Some(i) => {
                    proof {
                        assert(name_seq(self.registered_symbols@)[i as int] == symbol@);
                    }
                },
            }
        }
        match self.volatility_mode {
            VolatilityMode::Extreme => {
                return Err(EngineError::RiskCheckFailed("极端波动模式，禁止所有交易".to_string()));
            },
            VolatilityMode::High => {
                let two = Dec::from_int(2);
                proof {
                    Dec::lemma_of_parts(2, 0);
                    Dec::lemma_parts_eq(two, Dec::of_parts(2, 0));
                }
                let adjusted_ratio = self.max_position_ratio.div(&two);
                let position_ratio = order_value.div(&total_equity);
                if position_ratio.gt(&adjusted_ratio) {
                    return Err(
                        EngineError::PositionLimitExceeded(
                            two_amounts(
                                "高波动模式: 订单金额/总权益 ",
                                &position_ratio,
                                " 超过调整后的最大比例 ",
                                &adjusted_ratio,
                            ),
                        ),
                    );
                }
            },
            VolatilityMode::Normal => {
                if available_balance.lt(&self.min_reserve_balance) {
                    return Err(
                        EngineError::InsufficientFund(
                            two_amounts("可用资金 ", &available_balance, " 小于最低保留 ", &self.min_reserve_balance),
                        ),
                    );
                }
                let position_ratio = order_value.div(&total_equity);
                if position_ratio.gt(&self.max_position_ratio) {
                    return Err(
                        EngineError::PositionLimitExceeded(
                            two_amounts("订单金额/总权益 ", &position_ratio, " 超过最大比例 ", &self.max_position_ratio),
                        ),
                    );
                }
            },
        }
        Ok(())
    }
}

} // verus!
