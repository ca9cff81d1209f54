//! Rolling back funds after a failed send, a partial fill or a mismatch with the
//! exchange.
use vstd::prelude::*;
use crate::decimal::{Dec, rd_text, sub_spec, mul_spec, sum_in_range, product_in_range};
use crate::f_engine::business_types::ChannelType;
use crate::f_engine::fund_pool::{FundPoolManager, pool_of, other_unchanged};
use crate::text::with_amount;

verus! {

/// Why a rollback happened.
#[derive(Debug, Clone, Copy, PartialEq, Eq, Structural)]
pub enum RollbackType {
    OrderSendFailed,
    OrderTimeout,
    PartialFilled,
    StateInconsistent,
}

/// The outcome of a rollback.
#[derive(Debug, Clone)]
pub struct RollbackResult {
    pub success: bool,
    pub rollback_type: RollbackType,
    pub message: String,
}

impl RollbackResult {
    pub fn success(rollback_type: RollbackType, message: &str) -> (r: RollbackResult)
        ensures
            r.success,
            r.rollback_type == rollback_type,
            r.message@ == message@,
    {
        RollbackResult { success: true, rollback_type, message: message.to_string() }
    }

    pub fn failure(rollback_type: RollbackType, message: &str) -> (r: RollbackResult)
        ensures
            !r.success,
            r.rollback_type == rollback_type,
            r.message@ == message@,
    {
        RollbackResult { success: false, rollback_type, message: message.to_string() }
    }
}

/// What releasing `amount` from the frozen funds of a channel needs: when that much
/// is frozen, the subtraction stays in range.
pub open spec fn release_ok(m: FundPoolManager, ch: ChannelType, amount: Dec) -> bool {
    amount.val() <= pool_of(m, ch).frozen.val() ==> sum_in_range(pool_of(m, ch).frozen, amount, -1)
}

/// The pools after releasing `amount` from the frozen funds of `ch`: the frozen amount
/// drops by `amount` when that much is frozen, else nothing changes; the used and
/// allocated amounts and the other pool stay.
pub open spec fn released(before: FundPoolManager, after: FundPoolManager, ch: ChannelType, amount: Dec) -> bool {
    &&& amount.val() <= pool_of(before, ch).frozen.val() ==> pool_of(after, ch).frozen == sub_spec(
        pool_of(before, ch).frozen,
        amount,
    )
    &&& amount.val() > pool_of(before, ch).frozen.val() ==> pool_of(after, ch).frozen == pool_of(
        before,
        ch,
    ).frozen
    &&& pool_of(after, ch).used == pool_of(before, ch).used
    &&& pool_of(after, ch).allocated == pool_of(before, ch).allocated
    &&& other_unchanged(before, after, ch)
}

/// Rolls back fund reservations.
pub struct RollbackManager {
    pub fund_pool_manager: FundPoolManager,
}

impl RollbackManager {
    pub fn new(fund_pool_manager: FundPoolManager) -> (r: RollbackManager)
        ensures
            r.fund_pool_manager == fund_pool_manager,
    {
        RollbackManager { fund_pool_manager }
    }

    /// After a failed send: releases the frozen amount.
    pub fn rollback_order(&mut self, channel_type: ChannelType, frozen_amount: Dec) -> (r: RollbackResult)
        requires
            release_ok(old(self).fund_pool_manager, channel_type, frozen_amount),
        ensures
            released(old(self).fund_pool_manager, final(self).fund_pool_manager, channel_type, frozen_amount),
            r.success,
            r.rollback_type == RollbackType::OrderSendFailed,
            r.message@ == "已回滚冻结资金: "@ + rd_text(frozen_amount.mant(), frozen_amount.scl()),
    {
        let message = with_amount("已回滚冻结资金: ", &frozen_amount);
        self.fund_pool_manager.rollback(channel_type, frozen_amount);
        RollbackResult { success: true, rollback_type: RollbackType::OrderSendFailed, message }
    }

    /// After a partial fill: releases what was frozen and not filled, when positive.
    pub fn rollback_partial_fill(
        &mut self,
        channel_type: ChannelType,
        filled_amount: Dec,
        frozen_amount: Dec,
    ) -> (r: RollbackResult)
        requires
            sum_in_range(frozen_amount, filled_amount, -1),
            release_ok(old(self).fund_pool_manager, channel_type, sub_spec(frozen_amount, filled_amount)),
        ensures
            ({
                let remaining = sub_spec(frozen_amount, filled_amount);
                &&& remaining.val() > 0 ==> released(
                    old(self).fund_pool_manager,
                    final(self).fund_pool_manager,
                    channel_type,
                    remaining,
                )
                &&& remaining.val() <= 0 ==> final(self).fund_pool_manager == old(self).fund_pool_manager
                &&& r.message@ == "部分成交回滚: 成交="@ + rd_text(filled_amount.mant(), filled_amount.scl())
                    + ", 回滚="@ + rd_text(remaining.mant(), remaining.scl())
            }),
            r.success,
            r.rollback_type == RollbackType::PartialFilled,
    {
        let remaining = frozen_amount.sub(&filled_amount);
        if remaining.gt(&Dec::zero()) {
            self.fund_pool_manager.rollback(channel_type, remaining.copy());
        }
        let mut message = with_amount("部分成交回滚: 成交=", &filled_amount);
        let tail = with_amount(", 回滚=", &remaining);
        message.append(tail.as_str());
        RollbackResult { success: true, rollback_type: RollbackType::PartialFilled, message }
    }

    /// After the local amount drifted from the exchange's: releases the surplus.
    pub fn rollback_state_inconsistency(
        &mut self,
        channel_type: ChannelType,
        local_amount: Dec,
        exchange_amount: Dec,
    ) -> (r: RollbackResult)
        requires
            sum_in_range(local_amount, exchange_amount, -1),
            release_ok(old(self).fund_pool_manager, channel_type, sub_spec(local_amount, exchange_amount)),
        ensures
            ({
                let diff = sub_spec(local_amount, exchange_amount);
                &&& diff.val() > 0 ==> released(
                    old(self).fund_pool_manager,
                    final(self).fund_pool_manager,
                    channel_type,
                    diff,
                )
                &&& diff.val() <= 0 ==> final(self).fund_pool_manager == old(self).fund_pool_manager
                &&& r.message@ == "状态不一致回滚: 本地="@ + rd_text(local_amount.mant(), local_amount.scl())
                    + ", 交易所="@ + rd_text(exchange_amount.mant(), exchange_amount.scl()) + ", 差异="@
                    + rd_text(diff.mant(), diff.scl())
            }),
            r.success,
            r.rollback_type == RollbackType::StateInconsistent,
    {
        let diff = local_amount.sub(&exchange_amount);
        if diff.gt(&Dec::zero()) {
            self.fund_pool_manager.rollback(channel_type, diff.copy());
        }
        let mut message = with_amount("状态不一致回滚: 本地=", &local_amount);
        let part = with_amount(", 交易所=", &exchange_amount);
        message.append(part.as_str());
        let tail = with_amount(", 差异=", &diff);
        message.append(tail.as_str());
        RollbackResult { success: true, rollback_type: RollbackType::StateInconsistent, message }
    }

    pub fn fund_pool_manager(&self) -> (r: &FundPoolManager)
        ensures
            *r == self.fund_pool_manager,
    {
        &self.fund_pool_manager
    }
}

/// What is frozen for one order: `quantity * target_price`.
pub struct OrderRollbackHelper {
    pub channel_type: ChannelType,
    pub order_id: String,
    pub quantity: Dec,
    pub target_price: Dec,
    pub frozen_amount: Dec,
}

impl OrderRollbackHelper {
    pub fn new(order_id: String, channel_type: ChannelType, quantity: Dec, target_price: Dec) -> (r: OrderRollbackHelper)
        requires
            product_in_range(quantity, target_price),
        ensures
            r.frozen_amount == mul_spec(quantity, target_price),
            r.order_id == order_id,
            r.channel_type == channel_type,
            r.quantity == quantity,
            r.target_price == target_price,
    {
        let frozen_amount = quantity.mul(&target_price);
        OrderRollbackHelper { channel_type, order_id, quantity, target_price, frozen_amount }
    }

    /// The order value, which is the frozen amount.
    pub fn order_value(&self) -> (r: Dec)
        ensures
            r == self.frozen_amount,
    {
        self.frozen_amount.copy()
    }

    pub fn channel_type(&self) -> (r: ChannelType)
        ensures
            r == self.channel_type,
    {
        self.channel_type
    }

    pub fn order_id(&self) -> (r: &str)
        ensures
            r@ == self.order_id@,
    {
        self.order_id.as_str()
    }

    pub fn frozen_amount(&self) -> (r: Dec)
        ensures
            r == self.frozen_amount,
    {
        self.frozen_amount.copy()
    }
}

} // verus!
