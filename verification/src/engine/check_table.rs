//! The check table: the latest judgement of each (symbol, strategy, period).
use vstd::prelude::*;
use crate::decimal::Dec;
use crate::engine::strategy_types::Signal;
use crate::text::str_eq;

verus! {

/// Pine indicator colour of a bar.
#[derive(Debug, Clone, Copy, PartialEq, Eq, Structural)]
pub enum PineColor {
    PureGreen,
    LightGreen,
    PureRed,
    LightRed,
    Purple,
    Neutral,
}

/// One judgement of a pipeline.
#[derive(Debug, Clone)]
pub struct CheckEntry {
    pub symbol: String,
    pub strategy_id: String,
    /// "1m", "5m", "15m", "1d", or "tick".
    pub period: String,
    pub ema_signal: Signal,
    /// 0 to 100.
    pub rsi_value: Dec,
    pub pine_color: PineColor,
    /// 0 to 100: (close - low) / (high - low).
    pub price_position: Dec,
    pub final_signal: Signal,
    pub target_price: Dec,
    pub quantity: Dec,
    pub risk_flag: bool,
    /// Seconds.
    pub timestamp: i64,
    pub round_id: u64,
    pub is_high_freq: bool,
}

impl CheckEntry {
    /// A copy.
    pub fn copy(&self) -> (r: CheckEntry)
        ensures
            r == *self,
    {
        CheckEntry {
            symbol: self.symbol.clone(),
            strategy_id: self.strategy_id.clone(),
            period: self.period.clone(),
            ema_signal: self.ema_signal,
            rsi_value: self.rsi_value.copy(),
            pine_color: self.pine_color,
            price_position: self.price_position.copy(),
            final_signal: self.final_signal,
            target_price: self.target_price.copy(),
            quantity: self.quantity.copy(),
            risk_flag: self.risk_flag,
            timestamp: self.timestamp,
            round_id: self.round_id,
            is_high_freq: self.is_high_freq,
        }
    }
}

/// The key of an entry.
pub open spec fn entry_key(e: CheckEntry) -> (Seq<char>, Seq<char>, Seq<char>) {
    (e.symbol@, e.strategy_id@, e.period@)
}

/// The entries whose `pred` holds, in order.
pub open spec fn entries_with(s: Seq<CheckEntry>, by_strategy: bool, strategy: Seq<char>) -> Seq<CheckEntry>
    decreases s.len(),
{
    if s.len() == 0 {
        Seq::empty()
    } else {
        let rest = entries_with(s.drop_last(), by_strategy, strategy);
        let keep = if by_strategy { s.last().strategy_id@ == strategy } else { s.last().risk_flag };
        if keep { rest.push(s.last()) } else { rest }
    }
}

/// The latest entries and the round counter.
pub struct CheckTable {
    pub entries: Vec<CheckEntry>,
    pub round_id: u64,
}

impl CheckTable {
    /// One entry per key.
    pub open spec fn wf(self) -> bool {
        forall|i: int, j: int|
            0 <= i < j < self.entries@.len() ==> entry_key(#[trigger] self.entries@[i]) != entry_key(
                #[trigger] self.entries@[j],
            )
    }

    /// The entry of a key, if any.
    pub open spec fn entry_of(self, key: (Seq<char>, Seq<char>, Seq<char>)) -> Option<CheckEntry> {
        if exists|i: int| 0 <= i < self.entries@.len() && entry_key(#[trigger] self.entries@[i]) == key {
            Some(self.entries@[choose|i: int| 0 <= i < self.entries@.len() && entry_key(#[trigger] self.entries@[i]) == key])
        } else {
            None
        }
    }

    pub fn new() -> (r: CheckTable)
        ensures
            r.wf(),
            r.entries@.len() == 0,
            r.round_id == 0,
    {
        CheckTable { entries: Vec::new(), round_id: 0 }
    }

    /// Starts the next round and returns its id.
    pub fn next_round_id(&mut self) -> (r: u64)
        requires
            old(self).round_id < u64::MAX,
        ensures
            final(self).round_id == old(self).round_id + 1,
            r == final(self).round_id,
            final(self).entries == old(self).entries,
    {
        self.round_id = self.round_id + 1;
        self.round_id
    }

    fn find(&self, symbol: &str, strategy_id: &str, period: &str) -> (r: Option<usize>)
        ensures
            r is Some ==> r.unwrap() < self.entries@.len() && entry_key(self.entries@[r.unwrap() as int]) == (
                symbol@,
                strategy_id@,
                period@,
            ),
            r is None ==> forall|i: int|
                0 <= i < self.entries@.len() ==> entry_key(#[trigger] self.entries@[i]) != (symbol@, strategy_id@, period@),
    {
        let mut i: usize = 0;
        while i < self.entries.len()
            invariant
                i <= self.entries@.len(),
                forall|j: int| 0 <= j < i ==> entry_key(#[trigger] self.entries@[j]) != (symbol@, strategy_id@, period@),
            decreases self.entries@.len() - i,
        {
            let e = &self.entries[i];
            if str_eq(e.symbol.as_str(), symbol) && str_eq(e.strategy_id.as_str(), strategy_id) && str_eq(
                e.period.as_str(),
                period,
            ) {
                return Some(i);
            }
            i = i + 1;
        }
        None
    }

    /// Records an entry; it replaces the entry with the same key.
    pub fn fill(&mut self, entry: CheckEntry)
        requires
            old(self).wf(),
        ensures
            final(self).wf(),
            final(self).entry_of(entry_key(entry)) == Some(entry),
            forall|k: (Seq<char>, Seq<char>, Seq<char>)| k != entry_key(entry) ==> final(self).entry_of(k) == old(
                self).entry_of(k),
            final(self).round_id == old(self).round_id,
    {
        let ghost s = self.entries@;
        let ghost key = entry_key(entry);
        match self.find(entry.symbol.as_str(), entry.strategy_id.as_str(), entry.period.as_str()) {
            Some(i) => {
                self.entries.set(i, entry);
                proof {
                    let t = self.entries@;
                    assert forall|a: int, b: int| 0 <= a < b < t.len() implies entry_key(#[trigger] t[a]) != entry_key(
                        #[trigger] t[b],
                    ) by {
                        if a != i && b != i {
                            assert(s[a] == t[a] && s[b] == t[b]);
                        } else if a == i {
                            assert(entry_key(s[i as int]) == key);
                            assert(entry_key(s[i as int]) != entry_key(s[b]));
                        } else {
                            assert(entry_key(s[a]) != entry_key(s[i as int]));
                        }
                    }
                    assert(entry_key(t[i as int]) == key);
                    assert forall|k: (Seq<char>, Seq<char>, Seq<char>)| k != key implies self.entry_of(k) == old(self).entry_of(k) by {
                        if exists|j: int| 0 <= j < t.len() && entry_key(#[trigger] t[j]) == k {
                            let j = choose|j: int| 0 <= j < t.len() && entry_key(#[trigger] t[j]) == k;
                            assert(entry_key(s[j]) == k);
                            let j2 = choose|j: int| 0 <= j < s.len() && entry_key(#[trigger] s[j]) == k;
                            if j2 != j {
                                if j2 < j {
                                    assert(entry_key(s[j2]) != entry_key(s[j]));
                                } else {
                                    assert(entry_key(s[j]) != entry_key(s[j2]));
                                }
                            }
                        }
                        if exists|j: int| 0 <= j < s.len() && entry_key(#[trigger] s[j]) == k {
                            let j = choose|j: int| 0 <= j < s.len() && entry_key(#[trigger] s[j]) == k;
                            assert(entry_key(t[j]) == k);
                        }
                    }
                    let w = choose|j: int| 0 <= j < t.len() && entry_key(#[trigger] t[j]) == key;
                    if w != i {
                        if w < i {
                            assert(entry_key(t[w]) != entry_key(t[i as int]));
                        } else {
                            assert(entry_key(t[i as int]) != entry_key(t[w]));
                        }
                    }
                }
            },
            None => {
                self.entries.push(entry);
                proof {
                    let t = self.entries@;
                    let n = s.len() as int;
                    assert(entry_key(t[n]) == key);
                    assert forall|a: int, b: int| 0 <= a < b < t.len() implies entry_key(#[trigger] t[a]) != entry_key(
                        #[trigger] t[b],
                    ) by {
                        if b < n {
                            assert(s[a] == t[a] && s[b] == t[b]);
                        } else {
                            assert(t[a] == s[a]);
                        }
                    }
                    assert forall|k: (Seq<char>, Seq<char>, Seq<char>)| k != key implies self.entry_of(k) == old(self).entry_of(k) by {
                        if exists|j: int| 0 <= j < t.len() && entry_key(#[trigger] t[j]) == k {
                            let j = choose|j: int| 0 <= j < t.len() && entry_key(#[trigger] t[j]) == k;
                            assert(j < n);
                            assert(entry_key(s[j]) == k);
                            let j2 = choose|j: int| 0 <= j < s.len() && entry_key(#[trigger] s[j]) == k;
                            if j2 != j {
                                if j2 < j {
                                    assert(entry_key(s[j2]) != entry_key(s[j]));
                                } else {
                                    assert(entry_key(s[j]) != entry_key(s[j2]));
                                }
                            }
                        }
                        if exists|j: int| 0 <= j < s.len() && entry_key(#[trigger] s[j]) == k {
                            let j = choose|j: int| 0 <= j < s.len() && entry_key(#[trigger] s[j]) == k;
                            assert(entry_key(t[j]) == k);
                        }
                    }
                    let w = choose|j: int| 0 <= j < t.len() && entry_key(#[trigger] t[j]) == key;
                    if w != n {
                        assert(entry_key(t[w]) != entry_key(t[n]));
                    }
                }
            },
        }
    }

    /// The entry of (symbol, strategy, period).
    pub fn get(&self, symbol: &str, strategy_id: &str, period: &str) -> (r: Option<CheckEntry>)
        requires
            self.wf(),
        ensures
            r == self.entry_of((symbol@, strategy_id@, period@)),
    {
        match self.find(symbol, strategy_id, period) {
            Some(i) => {
                proof {
                    let key = (symbol@, strategy_id@, period@);
                    let w = choose|j: int| 0 <= j < self.entries@.len() && entry_key(#[trigger] self.entries@[j]) == key;
                    if w != i {
                        if w < i {
                            assert(entry_key(self.entries@[w]) != entry_key(self.entries@[i as int]));
                        } else {
                            assert(entry_key(self.entries@[i as int]) != entry_key(self.entries@[w]));
                        }
                    }
                }
                Some(self.entries[i].copy())
            },
            None => None,
        }
    }

    fn collect(&self, by_strategy: bool, strategy_id: &str) -> (r: Vec<CheckEntry>)
        ensures
            r@ == entries_with(self.entries@, by_strategy, strategy_id@),
    {
        let mut out: Vec<CheckEntry> = Vec::new();
        let mut i: usize = 0;
        while i < self.entries.len()
            invariant
                i <= self.entries@.len(),
                out@ == entries_with(self.entries@.take(i as int), by_strategy, strategy_id@),
            decreases self.entries@.len() - i,
        {
            proof {
                assert(self.entries@.take(i as int + 1).drop_last() =~= self.entries@.take(i as int));
            }
            let e = &self.entries[i];
            let keep = if by_strategy { str_eq(e.strategy_id.as_str(), strategy_id) } else { e.risk_flag };
            if keep {
                out.push(e.copy());
            }
            i = i + 1;
        }
        proof {
            assert(self.entries@.take(i as int) =~= self.entries@);
        }
        out
    }

    /// The entries of a strategy, in order.
    pub fn get_by_strategy(&self, strategy_id: &str) -> (r: Vec<CheckEntry>)
        ensures
            r@ == entries_with(self.entries@, true, strategy_id@),
    {
        self.collect(true, strategy_id)
    }

    /// The entries flagged as risky, in order.
    pub fn get_high_risk(&self) -> (r: Vec<CheckEntry>)
        ensures
            r@ == entries_with(self.entries@, false, ""@),
    {
        self.collect(false, "")
    }

    /// Drops all entries; the round counter stays.
    pub fn clear(&mut self)
        ensures
            final(self).wf(),
            final(self).entries@.len() == 0,
            final(self).round_id == old(self).round_id,
    {
        self.entries = Vec::new();
    }

    pub fn current_round_id(&self) -> (r: u64)
        ensures
            r == self.round_id,
    {
        self.round_id
    }
}

impl Default for CheckTable {
    fn default() -> (r: CheckTable)
        ensures
            r.wf(),
            r.entries@.len() == 0,
            r.round_id == 0,
    {
        CheckTable::new()
    }
}

} // verus!
