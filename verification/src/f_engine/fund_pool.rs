//! The minute (high-speed) and daily (low-speed) fund pools.
use vstd::prelude::*;
use crate::decimal::{Dec, add_spec, sub_spec, sum_in_range, exact_sum, lemma_add_exact, lemma_sub_exact};
use crate::f_engine::business_types::{ChannelType, FundPool};

verus! {

/// Two fund pools, one per channel.
#[derive(Debug, Clone)]
pub struct FundPoolManager {
    pub minute_pool: FundPool,
    pub daily_pool: FundPool,
}

/// The pool that serves a channel: high speed uses the minute pool, low speed the daily.
pub open spec fn pool_of(m: FundPoolManager, ch: ChannelType) -> FundPool {
    match ch {
        ChannelType::HighSpeed => m.minute_pool,
        ChannelType::LowSpeed => m.daily_pool,
    }
}

/// The other pool is left as it was.
pub open spec fn other_unchanged(a: FundPoolManager, b: FundPoolManager, ch: ChannelType) -> bool {
    match ch {
        ChannelType::HighSpeed => b.daily_pool == a.daily_pool,
        ChannelType::LowSpeed => b.minute_pool == a.minute_pool,
    }
}

impl FundPoolManager {
    /// Two pools with the given allocations and nothing used or frozen.
    pub fn new(minute_allocated: Dec, daily_allocated: Dec) -> (r: FundPoolManager)
        ensures
            r.minute_pool.name@ == "minute"@,
            r.minute_pool.allocated == minute_allocated,
            r.minute_pool.used == Dec::of_parts(0, 0),
            r.minute_pool.frozen == Dec::of_parts(0, 0),
            r.daily_pool.name@ == "daily"@,
            r.daily_pool.allocated == daily_allocated,
            r.daily_pool.used == Dec::of_parts(0, 0),
            r.daily_pool.frozen == Dec::of_parts(0, 0),
    {
        FundPoolManager {
            minute_pool: FundPool::new("minute", minute_allocated),
            daily_pool: FundPool::new("daily", daily_allocated),
        }
    }

    /// The pool of a channel.
    pub fn get_pool(&self, channel_type: ChannelType) -> (r: &FundPool)
        ensures
            *r == pool_of(*self, channel_type),
    {
        match channel_type {
            ChannelType::HighSpeed => &self.minute_pool,
            ChannelType::LowSpeed => &self.daily_pool,
        }
    }

    /// Freezes `amount` in the channel's pool when available.
    pub fn freeze(&mut self, channel_type: ChannelType, amount: Dec) -> (r: bool)
        requires
            pool_of(*old(self), channel_type).available_ok(),
            amount.val() <= pool_of(*old(self), channel_type).available_spec().val()
                ==> sum_in_range(pool_of(*old(self), channel_type).frozen, amount, 1),
        ensures
            r == (amount.val() <= pool_of(*old(self), channel_type).available_spec().val()),
            r ==> pool_of(*final(self), channel_type).frozen == add_spec(
                pool_of(*old(self), channel_type).frozen,
                amount,
            ),
            !r ==> pool_of(*final(self), channel_type).frozen == pool_of(
                *old(self),
                channel_type,
            ).frozen,
            pool_of(*final(self), channel_type).used == pool_of(*old(self), channel_type).used,
            pool_of(*final(self), channel_type).allocated == pool_of(
                *old(self),
                channel_type,
            ).allocated,
            other_unchanged(*old(self), *final(self), channel_type),
    {
        match channel_type {
            ChannelType::HighSpeed => self.minute_pool.freeze(amount),
            ChannelType::LowSpeed => self.daily_pool.freeze(amount),
        }
    }

    /// Moves `amount` from frozen to used in the channel's pool when that much is frozen.
    pub fn confirm_usage(&mut self, channel_type: ChannelType, amount: Dec)
        requires
            amount.val() <= pool_of(*old(self), channel_type).frozen.val() ==> (sum_in_range(
                pool_of(*old(self), channel_type).frozen,
                amount,
                -1,
            ) && sum_in_range(pool_of(*old(self), channel_type).used, amount, 1)),
        ensures
            amount.val() <= pool_of(*old(self), channel_type).frozen.val() ==> (pool_of(
                *final(self),
                channel_type,
            ).frozen == sub_spec(pool_of(*old(self), channel_type).frozen, amount) && pool_of(
                *final(self),
                channel_type,
            ).used == add_spec(pool_of(*old(self), channel_type).used, amount)),
            amount.val() > pool_of(*old(self), channel_type).frozen.val() ==> pool_of(
                *final(self),
                channel_type,
            ) == pool_of(*old(self), channel_type),
            pool_of(*final(self), channel_type).allocated == pool_of(
                *old(self),
                channel_type,
            ).allocated,
            other_unchanged(*old(self), *final(self), channel_type),
    {
        match channel_type {
            ChannelType::HighSpeed => self.minute_pool.confirm_usage(amount),
            ChannelType::LowSpeed => self.daily_pool.confirm_usage(amount),
        }
    }

    /// Releases `amount` of the channel's frozen funds when that much is frozen.
    pub fn release_frozen(&mut self, channel_type: ChannelType, amount: Dec)
        requires
            amount.val() <= pool_of(*old(self), channel_type).frozen.val() ==> sum_in_range(
                pool_of(*old(self), channel_type).frozen,
                amount,
                -1,
            ),
        ensures
            amount.val() <= pool_of(*old(self), channel_type).frozen.val() ==> pool_of(
                *final(self),
                channel_type,
            ).frozen == sub_spec(pool_of(*old(self), channel_type).frozen, amount),
            amount.val() > pool_of(*old(self), channel_type).frozen.val() ==> pool_of(
                *final(self),
                channel_type,
            ).frozen == pool_of(*old(self), channel_type).frozen,
            pool_of(*final(self), channel_type).used == pool_of(*old(self), channel_type).used,
            pool_of(*final(self), channel_type).allocated == pool_of(
                *old(self),
                channel_type,
            ).allocated,
            other_unchanged(*old(self), *final(self), channel_type),
    {
        match channel_type {
            ChannelType::HighSpeed => self.minute_pool.release_frozen(amount),
            ChannelType::LowSpeed => self.daily_pool.release_frozen(amount),
        }
    }

    /// Rolls back: releases frozen funds.
    pub fn rollback(&mut self, channel_type: ChannelType, amount: Dec)
        requires
            amount.val() <= pool_of(*old(self), channel_type).frozen.val() ==> sum_in_range(
                pool_of(*old(self), channel_type).frozen,
                amount,
                -1,
            ),
        ensures
            amount.val() <= pool_of(*old(self), channel_type).frozen.val() ==> pool_of(
                *final(self),
                channel_type,
            ).frozen == sub_spec(pool_of(*old(self), channel_type).frozen, amount),
            amount.val() > pool_of(*old(self), channel_type).frozen.val() ==> pool_of(
                *final(self),
                channel_type,
            ).frozen == pool_of(*old(self), channel_type).frozen,
            pool_of(*final(self), channel_type).used == pool_of(*old(self), channel_type).used,
            pool_of(*final(self), channel_type).allocated == pool_of(
                *old(self),
                channel_type,
            ).allocated,
            other_unchanged(*old(self), *final(self), channel_type),
    {
        self.release_frozen(channel_type, amount);
    }

    /// Available funds of a channel.
    pub fn available(&self, channel_type: ChannelType) -> (r: Dec)
        requires
            pool_of(*self, channel_type).available_ok(),
        ensures
            r == pool_of(*self, channel_type).available_spec(),
    {
        self.get_pool(channel_type).available()
    }

    /// Whether at least `amount` is available.
    pub fn has_sufficient_funds(&self, channel_type: ChannelType, amount: Dec) -> (r: bool)
        requires
            pool_of(*self, channel_type).available_ok(),
        ensures
            r == (pool_of(*self, channel_type).available_spec().val() >= amount.val()),
    {
        self.available(channel_type).ge(&amount)
    }

    /// (allocated, used, frozen) of the minute pool.
    pub fn minute_pool_info(&self) -> (r: (Dec, Dec, Dec))
        ensures
            r == (self.minute_pool.allocated, self.minute_pool.used, self.minute_pool.frozen),
    {
        (self.minute_pool.allocated.copy(), self.minute_pool.used.copy(), self.minute_pool.frozen.copy())
    }

    /// (allocated, used, frozen) of the daily pool.
    pub fn daily_pool_info(&self) -> (r: (Dec, Dec, Dec))
        ensures
            r == (self.daily_pool.allocated, self.daily_pool.used, self.daily_pool.frozen),
    {
        (self.daily_pool.allocated.copy(), self.daily_pool.used.copy(), self.daily_pool.frozen.copy())
    }

    /// Usage rate of the minute pool.
    pub fn minute_usage_rate(&self) -> (r: Dec)
        requires
            self.minute_pool.usage_rate_ok(),
        ensures
            r == self.minute_pool.usage_rate_spec(),
    {
        self.minute_pool.usage_rate()
    }

    /// Usage rate of the daily pool.
    pub fn daily_usage_rate(&self) -> (r: Dec)
        requires
            self.daily_pool.usage_rate_ok(),
        ensures
            r == self.daily_pool.usage_rate_spec(),
    {
        self.daily_pool.usage_rate()
    }

    /// Whether the channel's pool has nothing left.
    pub fn is_resource_full(
        &self,
        channel_type: ChannelType,
        _max_symbols: usize,
        _current_symbols: usize,
        _amount: Dec,
    ) -> (r: bool)
        requires
            pool_of(*self, channel_type).available_ok(),
        ensures
            r == (pool_of(*self, channel_type).available_spec().val() <= 0),
    {
        self.get_pool(channel_type).is_full()
    }
}

/// Freezing an amount and rolling the same amount back restores the value of the
/// frozen funds, whenever neither step rounds.
pub proof fn lemma_freeze_rollback_restores(frozen: Dec, amount: Dec)
    requires
        frozen.wf(),
        amount.wf(),
        exact_sum(frozen, amount, 1),
        exact_sum(add_spec(frozen, amount), amount, -1),
    ensures
        sub_spec(add_spec(frozen, amount), amount).val() == frozen.val(),
{
    lemma_add_exact(frozen, amount);
    lemma_sub_exact(add_spec(frozen, amount), amount);
}

/// Confirming usage moves value from frozen to used and leaves what is available
/// unchanged, whenever no step rounds.
pub proof fn lemma_confirm_keeps_available(pool: FundPool, amount: Dec)
    requires
        pool.allocated.wf(),
        pool.used.wf(),
        pool.frozen.wf(),
        amount.wf(),
        exact_sum(pool.allocated, pool.used, -1),
        exact_sum(sub_spec(pool.allocated, pool.used), pool.frozen, -1),
        exact_sum(pool.frozen, amount, -1),
        exact_sum(pool.used, amount, 1),
        exact_sum(pool.allocated, add_spec(pool.used, amount), -1),
        exact_sum(sub_spec(pool.allocated, add_spec(pool.used, amount)), sub_spec(pool.frozen, amount), -1),
    ensures
        (FundPool {
            used: add_spec(pool.used, amount),
            frozen: sub_spec(pool.frozen, amount),
            ..pool
        }).available_spec().val() == pool.available_spec().val(),
{
    lemma_sub_exact(pool.allocated, pool.used);
    lemma_sub_exact(sub_spec(pool.allocated, pool.used), pool.frozen);
    lemma_sub_exact(pool.frozen, amount);
    lemma_add_exact(pool.used, amount);
    lemma_sub_exact(pool.allocated, add_spec(pool.used, amount));
    lemma_sub_exact(sub_spec(pool.allocated, add_spec(pool.used, amount)), sub_spec(pool.frozen, amount));
}

} // verus!
