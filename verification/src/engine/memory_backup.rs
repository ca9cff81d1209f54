//! The in-memory backup of trading data: the records it keeps, where each of them
//! lives below the backup directory, how long lists are cut back, and how trade CSV
//! files roll over.  Reading and writing the files is the caller's.
use vstd::prelude::*;
use crate::decimal::Dec;
use crate::engine::error::EngineError;
use crate::text::{str_contains, str_eq, seq_contains, zero_padded, zero_padded_digits, decimal_text};

verus! {

/// Most bars kept per file.
pub const MAX_KLINE_ENTRIES: usize = 1000;
/// Most trades kept.
pub const MAX_TRADES_ENTRIES: usize = 500;
/// The most bars kept per period in a symbol's bar cache.
pub const MAX_KXIAN_ENTRIES: usize = 1000;
/// Most indicator records kept.
pub const MAX_INDICATORS_ENTRIES: usize = 100;
/// Most depth levels kept per side.
pub const MAX_DEPTH_ENTRIES: usize = 100;
/// Most active tasks kept per pool.
pub const MAX_TASKS_ENTRIES: usize = 100;
/// Size at which a trade CSV file is full (100 MiB).
pub const MAX_CSV_FILE_SIZE: u64 = 104857600;
/// Most trade CSV files per symbol.
pub const MAX_CSV_FILES: usize = 1000;

/// The header of a new trade CSV file.
pub const TRADE_CSV_HEADER: &'static str = "timestamp,symbol,side,price,qty,trade_id,order_id,ema_signal,rsi_value,pine_color,price_position,final_signal,target_price,quantity,risk_flag,round_id,is_high_freq\n";

pub const KLINE_1M_REALTIME_DIR: &'static str = "kline-1m-实时/";
pub const KLINE_1M_HISTORY_DIR: &'static str = "kline-1m-历史/";
pub const KLINE_1D_REALTIME_DIR: &'static str = "kline-1d-实时/";
pub const KLINE_1D_HISTORY_DIR: &'static str = "kline-1d-历史/";
pub const INDICATORS_1M_REALTIME_DIR: &'static str = "indicators-1m-实时/";
pub const INDICATORS_1M_HISTORY_DIR: &'static str = "indicators-1m-历史/";
pub const INDICATORS_1D_REALTIME_DIR: &'static str = "indicators-1d-实时/";
pub const INDICATORS_1D_HISTORY_DIR: &'static str = "indicators-1d-历史/";

/// One bar.
#[derive(Debug, Clone)]
pub struct KlineEntry {
    pub t: String,
    pub o: Dec,
    pub h: Dec,
    pub l: Dec,
    pub c: Dec,
    pub v: Dec,
}

/// The bars of a period, realtime or history.
#[derive(Debug, Clone)]
pub struct KlineData {
    pub period: String,
    pub data_type: String,
    pub klines: Vec<KlineEntry>,
}

impl KlineData {
    /// No bars yet.
    pub fn new(period: &str, data_type: &str) -> (r: KlineData)
        ensures
            r.period@ == period@,
            r.data_type@ == data_type@,
            r.klines@.len() == 0,
    {
        KlineData { period: period.to_string(), data_type: data_type.to_string(), klines: Vec::new() }
    }
}

/// The account.
#[derive(Debug, Clone)]
pub struct AccountSnapshot {
    pub equity: Dec,
    pub available: Dec,
    pub frozen: Dec,
    pub unrealized_pnl: Dec,
    pub updated_at: String,
}

/// One symbol's position.
#[derive(Debug, Clone)]
pub struct PositionSnapshot {
    pub symbol: String,
    pub long_qty: Dec,
    pub long_avg_price: Dec,
    pub short_qty: Dec,
    pub short_avg_price: Dec,
    pub updated_at: String,
}

/// All positions.
#[derive(Debug, Clone)]
pub struct Positions {
    pub positions: Vec<PositionSnapshot>,
    pub updated_at: String,
}

impl Default for Positions {
    fn default() -> (r: Positions)
        ensures
            r.positions@.len() == 0,
            r.updated_at@.len() == 0,
    {
        Positions { positions: Vec::new(), updated_at: String::new() }
    }
}

/// One level of the order book.
#[derive(Debug, Clone)]
pub struct DepthEntry {
    pub price: Dec,
    pub qty: Dec,
}

/// The order book of a symbol.
#[derive(Debug, Clone)]
pub struct DepthData {
    pub symbol: String,
    pub bids: Vec<DepthEntry>,
    pub asks: Vec<DepthEntry>,
    pub updated_at: String,
}

impl Default for DepthData {
    fn default() -> (r: DepthData)
        ensures
            r.symbol@.len() == 0,
            r.bids@.len() == 0,
            r.asks@.len() == 0,
            r.updated_at@.len() == 0,
    {
        DepthData { symbol: String::new(), bids: Vec::new(), asks: Vec::new(), updated_at: String::new() }
    }
}

/// Indicator values of a period.
#[derive(Debug, Clone)]
pub struct IndicatorsData {
    pub period: String,
    pub data_type: String,
    pub ema_fast: Dec,
    pub ema_slow: Dec,
    pub rsi: Dec,
    pub pine_color: String,
    pub price_position: Dec,
    pub tr_ratio: Dec,
    pub updated_at: String,
}

impl IndicatorsData {
    /// All values zero, no colour.
    pub fn new(period: &str, data_type: &str) -> (r: IndicatorsData)
        ensures
            r.period@ == period@,
            r.data_type@ == data_type@,
            r.ema_fast == Dec::of_parts(0, 0),
            r.ema_slow == Dec::of_parts(0, 0),
            r.rsi == Dec::of_parts(0, 0),
            r.pine_color@.len() == 0,
            r.price_position == Dec::of_parts(0, 0),
            r.tr_ratio == Dec::of_parts(0, 0),
            r.updated_at@.len() == 0,
    {
        IndicatorsData {
            period: period.to_string(),
            data_type: data_type.to_string(),
            ema_fast: Dec::zero(),
            ema_slow: Dec::zero(),
            rsi: Dec::zero(),
            pine_color: String::new(),
            price_position: Dec::zero(),
            tr_ratio: Dec::zero(),
            updated_at: String::new(),
        }
    }
}

/// The state of a channel.
#[derive(Debug, Clone)]
pub struct ChannelData {
    pub channel_type: String,
    pub volatility: Dec,
    pub tr_ratio: Dec,
    pub trend: String,
    pub updated_at: String,
}

/// A task.
#[derive(Debug, Clone)]
pub struct TaskInfo {
    pub task_id: String,
    pub symbol: String,
    pub task_type: String,
    pub status: String,
    pub created_at: String,
}

/// New bars of a symbol, by period.
#[derive(Debug, Clone)]
pub struct KxianData {
    pub m1: Vec<KlineEntry>,
    pub m5: Vec<KlineEntry>,
    pub m15: Vec<KlineEntry>,
    pub d1: Vec<KlineEntry>,
}

impl Default for KxianData {
    fn default() -> (r: KxianData)
        ensures
            r.m1@.len() == 0 && r.m5@.len() == 0 && r.m15@.len() == 0 && r.d1@.len() == 0,
    {
        KxianData { m1: Vec::new(), m5: Vec::new(), m15: Vec::new(), d1: Vec::new() }
    }
}

/// The cached bars of a symbol, by period.
#[derive(Debug, Clone)]
pub struct KxianCache {
    pub m1: Vec<KlineEntry>,
    pub m5: Vec<KlineEntry>,
    pub m15: Vec<KlineEntry>,
    pub d1: Vec<KlineEntry>,
}

impl Default for KxianCache {
    fn default() -> (r: KxianCache)
        ensures
            r.m1@.len() == 0 && r.m5@.len() == 0 && r.m15@.len() == 0 && r.d1@.len() == 0,
    {
        KxianCache { m1: Vec::new(), m5: Vec::new(), m15: Vec::new(), d1: Vec::new() }
    }
}

/// One trade of the market.
#[derive(Debug, Clone)]
pub struct RealtimeTradeEntry {
    /// The trade's id.
    pub t: String,
    pub p: Dec,
    pub q: Dec,
    pub time: String,
    /// Whether the buyer was the maker.
    pub is_buyer_maker: bool,
}

/// The recent trades of a symbol.
#[derive(Debug, Clone)]
pub struct RealtimeTradesData {
    pub trades: Vec<RealtimeTradeEntry>,
}

impl Default for RealtimeTradesData {
    fn default() -> (r: RealtimeTradesData)
        ensures
            r.trades@.len() == 0,
    {
        RealtimeTradesData { trades: Vec::new() }
    }
}

/// An order as backed up.
#[derive(Debug, Clone)]
pub struct OrderSnapshot {
    pub order_id: String,
    pub symbol: String,
    pub side: String,
    pub qty: Dec,
    pub price: Dec,
    pub status: String,
    pub created_at: String,
}

/// A trade as backed up.
#[derive(Debug, Clone)]
pub struct TradeSnapshot {
    pub trade_id: String,
    pub order_id: String,
    pub symbol: String,
    pub price: Dec,
    pub qty: Dec,
    pub executed_at: String,
}

/// A pool of tasks.
#[derive(Debug, Clone)]
pub struct TaskPool {
    pub pool_type: String,
    pub active_tasks: Vec<TaskInfo>,
    pub completed_count: u64,
    pub failed_count: u64,
    pub updated_at: String,
}

impl Default for TaskPool {
    fn default() -> (r: TaskPool)
        ensures
            r.pool_type@.len() == 0,
            r.active_tasks@.len() == 0,
            r.completed_count == 0,
            r.failed_count == 0,
            r.updated_at@.len() == 0,
    {
        TaskPool {
            pool_type: String::new(),
            active_tasks: Vec::new(),
            completed_count: 0,
            failed_count: 0,
            updated_at: String::new(),
        }
    }
}

/// A tradable pair.
#[derive(Debug, Clone)]
pub struct TradingPairInfo {
    pub symbol: String,
    pub status: String,
    pub base_asset: String,
    pub quote_asset: String,
}

/// The tradable pairs.
#[derive(Debug, Clone)]
pub struct TradingPairs {
    pub pairs: Vec<TradingPairInfo>,
    pub updated_at: String,
}

impl Default for TradingPairs {
    fn default() -> (r: TradingPairs)
        ensures
            r.pairs@.len() == 0,
            r.updated_at@.len() == 0,
    {
        TradingPairs { pairs: Vec::new(), updated_at: String::new() }
    }
}

/// The exchange's rules of a symbol; `filters` holds the exchange's filters as JSON
/// text.
#[derive(Debug, Clone)]
pub struct SymbolRulesData {
    pub symbol: String,
    pub price_precision: i32,
    pub quantity_precision: i32,
    pub tick_size: Dec,
    pub min_qty: Dec,
    pub step_size: Dec,
    pub min_notional: Dec,
    pub max_notional: Dec,
    pub leverage: i32,
    pub maker_fee: Dec,
    pub taker_fee: Dec,
    pub liquidation_fee: Dec,
    pub filters: String,
}

/// Which strategy level holds a symbol.
#[derive(Debug, Clone)]
pub struct SymbolMutexStatus {
    pub symbol: String,
    pub strategy_level: String,
    pub status: String,
    pub registered_at: i64,
    pub updated_at: i64,
}

/// `v` with its oldest entries dropped until at most `max` are left.
pub open spec fn trimmed<T>(v: Seq<T>, max: nat) -> Seq<T> {
    if v.len() > max {
        v.skip(v.len() - max)
    } else {
        v
    }
}

/// Trimming keeps the newest entries: at most `max` of them, in order, ending with
/// the last one, and all of them when there are no more than `max`.
pub proof fn lemma_trimmed_keeps_newest<T>(v: Seq<T>, max: nat)
    ensures
        trimmed(v, max).len() == if v.len() > max { max } else { v.len() },
        forall|i: int|
            0 <= i < trimmed(v, max).len() ==> #[trigger] trimmed(v, max)[i] == v[v.len() - trimmed(v, max).len() + i],
        v.len() <= max ==> trimmed(v, max) == v,
{
}

/// Drops the oldest entries (from the front) until at most `max` are left.
pub fn trim_entries<T>(v: &mut Vec<T>, max: usize)
    ensures
        final(v)@ == trimmed(old(v)@, max as nat),
{
    let ghost start = v@;
    while v.len() > max
        invariant
            start.len() >= v@.len(),
            v@ == start.skip(start.len() - v@.len()),
            v@.len() >= max ==> trimmed(start, max as nat) == trimmed(v@, max as nat),
            v@.len() < max ==> v@ == start,
        decreases v@.len(),
    {
        let ghost before = v@;
        v.remove(0);
        proof {
            assert(v@ =~= before.skip(1));
            assert(v@ =~= start.skip(start.len() - v@.len()));
        }
    }
    proof {
        if start.len() > max {
            assert(v@ =~= start.skip(start.len() - max));
        } else {
            assert(v@ =~= start);
        }
    }
}

/// Whether the levels are ordered by price, highest first.
pub open spec fn by_price_desc(v: Seq<DepthEntry>) -> bool {
    forall|i: int, j: int| 0 <= i < j < v.len() ==> v[i].price.val() >= v[j].price.val()
}

/// The first position at which a level priced `price` goes into `v` (ordered
/// highest first): after every level priced at least as high.
fn insert_position(v: &Vec<DepthEntry>, price: &Dec) -> (r: usize)
    requires
        by_price_desc(v@),
    ensures
        r <= v@.len(),
        forall|k: int| 0 <= k < r ==> v@[k].price.val() >= price.val(),
        forall|k: int| r <= k < v@.len() ==> v@[k].price.val() < price.val(),
{
    let mut p: usize = 0;
    while p < v.len() && !v[p].price.lt(price)
        invariant
            p <= v@.len(),
            by_price_desc(v@),
            forall|k: int| 0 <= k < p ==> v@[k].price.val() >= price.val(),
        decreases v@.len() - p,
    {
        p = p + 1;
    }
    proof {
        if p < v@.len() {
            assert forall|k: int| p <= k < v@.len() implies v@[k].price.val() < price.val() by {
                if k > p {
                    assert(v@[p as int].price.val() >= v@[k].price.val());
                }
            }
        }
    }
    p
}

/// Sorts levels by price, highest first; levels of equal price keep their order.
pub fn sort_by_price_desc(v: &mut Vec<DepthEntry>)
    ensures
        by_price_desc(final(v)@),
        final(v)@.to_multiset() == old(v)@.to_multiset(),
{
    broadcast use vstd::multiset::group_multiset_axioms;
    let ghost orig = v@;
    let mut out: Vec<DepthEntry> = Vec::new();
    proof {
        vstd::seq_lib::to_multiset_len(out@);
        vstd::multiset::lemma_multiset_empty_len(out@.to_multiset());
        assert(out@.to_multiset() =~= vstd::multiset::Multiset::empty());
        assert(out@.to_multiset().add(v@.to_multiset()) =~= orig.to_multiset());
    }
    while v.len() > 0
        invariant
            by_price_desc(out@),
            out@.to_multiset().add(v@.to_multiset()) == orig.to_multiset(),
        decreases v@.len(),
    {
        let ghost before_v = v@;
        let ghost before_out = out@;
        let x = v.remove(0);
        let p = insert_position(&out, &x.price);
        out.insert(p, x);
        proof {
            vstd::seq_lib::to_multiset_remove(before_v, 0);
            vstd::seq_lib::to_multiset_insert(before_out, p as int, before_v[0]);
            vstd::seq_lib::to_multiset_contains(before_v, before_v[0]);
            assert(before_v.contains(before_v[0]));
            assert(out@.to_multiset().add(v@.to_multiset()) =~= before_out.to_multiset().add(
                before_v.to_multiset(),
            ));
            assert forall|a: int, b: int| 0 <= a < b < out@.len() implies out@[a].price.val()
                >= out@[b].price.val() by {
                if b < p {
                    assert(out@[a] == before_out[a]);
                    assert(out@[b] == before_out[b]);
                } else if b == p {
                    assert(out@[a] == before_out[a]);
                } else if a < p {
                    assert(out@[a] == before_out[a]);
                    assert(out@[b] == before_out[b - 1]);
                } else if a == p {
                    assert(out@[b] == before_out[b - 1]);
                } else {
                    assert(out@[a] == before_out[a - 1]);
                    assert(out@[b] == before_out[b - 1]);
                }
            }
        }
    }
    proof {
        vstd::seq_lib::to_multiset_len(v@);
        vstd::multiset::lemma_multiset_empty_len(v@.to_multiset());
        assert(v@.to_multiset() =~= vstd::multiset::Multiset::empty());
        assert(out@.to_multiset().add(v@.to_multiset()) =~= out@.to_multiset());
    }
    *v = out;
}

/// Keeps the newest `max` levels and orders them by price, highest first.
pub fn trim_depth_entries(v: &mut Vec<DepthEntry>, max: usize)
    ensures
        by_price_desc(final(v)@),
        final(v)@.to_multiset() == trimmed(old(v)@, max as nat).to_multiset(),
{
    trim_entries(v, max);
    sort_by_price_desc(v);
}

/// The directory (with its slash) for bars of a period and kind; unknown pairs fall
/// back to realtime minute bars.
pub open spec fn kline_dir_text(period: Seq<char>, data_type: Seq<char>) -> Seq<char> {
    if period == "1m"@ && data_type == "history"@ {
        KLINE_1M_HISTORY_DIR@
    } else if period == "1d"@ && data_type == "realtime"@ {
        KLINE_1D_REALTIME_DIR@
    } else if period == "1d"@ && data_type == "history"@ {
        KLINE_1D_HISTORY_DIR@
    } else {
        KLINE_1M_REALTIME_DIR@
    }
}

/// The directory (with its slash) for indicators of a period and kind; unknown pairs
/// fall back to realtime minute indicators.
pub open spec fn indicators_dir_text(period: Seq<char>, data_type: Seq<char>) -> Seq<char> {
    if period == "1m"@ && data_type == "history"@ {
        INDICATORS_1M_HISTORY_DIR@
    } else if period == "1d"@ && data_type == "realtime"@ {
        INDICATORS_1D_REALTIME_DIR@
    } else if period == "1d"@ && data_type == "history"@ {
        INDICATORS_1D_HISTORY_DIR@
    } else {
        INDICATORS_1M_REALTIME_DIR@
    }
}

/// `base` with the suffix ".csv" removed if it ends with it.
pub open spec fn without_csv(p: Seq<char>) -> Seq<char> {
    if p.len() >= 4 && p.subrange(p.len() - 4, p.len() as int) == ".csv"@ {
        p.subrange(0, p.len() - 4)
    } else {
        p
    }
}

/// The `index`-th trade file of `base`: `base` itself for the first, else
/// `base` without ".csv", "_", the index in three digits, ".csv".
pub open spec fn csv_part_text(base: Seq<char>, index: nat) -> Seq<char> {
    if index <= 1 {
        base
    } else {
        without_csv(base) + "_"@ + zero_padded_digits(index, 3) + ".csv"@
    }
}

/// What to do after looking at trade file `index`.
#[derive(Debug, Clone, PartialEq, Eq)]
pub enum CsvIndexStep {
    /// Write to this file.
    Use(usize),
    /// Look at the next file.
    Next(usize),
    /// Too many files.
    TooMany(EngineError),
}

/// The text of the error about too many trade files.
pub open spec fn too_many_csv_text(index: nat) -> Seq<char> {
    "CSV 文件数量超过限制: "@ + crate::text::decimal_digits(index)
}

/// The error text for an unknown kind of something.
pub open spec fn unknown_text(what: Seq<char>, name: Seq<char>) -> Seq<char> {
    what + name
}

/// Whether an error reports a file that could not be opened.
pub open spec fn is_open_failure(e: EngineError) -> bool {
    e matches EngineError::MemoryBackup(msg) && seq_contains(msg@, "打开文件失败"@)
}

/// The in-memory backup: its directory, the disk directory it is copied to, and how
/// often.
#[derive(Debug, Clone)]
pub struct MemoryBackup {
    pub tmpfs_dir: String,
    pub disk_dir: String,
    pub sync_interval_secs: u64,
}

impl MemoryBackup {
    pub fn new(tmpfs_dir: &str, disk_dir: &str, sync_interval_secs: u64) -> (r: MemoryBackup)
        ensures
            r.tmpfs_dir@ == tmpfs_dir@,
            r.disk_dir@ == disk_dir@,
            r.sync_interval_secs == sync_interval_secs,
    {
        MemoryBackup { tmpfs_dir: tmpfs_dir.to_string(), disk_dir: disk_dir.to_string(), sync_interval_secs }
    }

    pub fn tmpfs_dir(&self) -> (r: &str)
        ensures
            r@ == self.tmpfs_dir@,
    {
        self.tmpfs_dir.as_str()
    }

    pub fn disk_dir(&self) -> (r: &str)
        ensures
            r@ == self.disk_dir@,
    {
        self.disk_dir.as_str()
    }

    pub fn sync_interval_secs(&self) -> (r: u64)
        ensures
            r == self.sync_interval_secs,
    {
        self.sync_interval_secs
    }

    /// `tmpfs_dir`, a slash, then `rest`.
    fn under(&self, rest: &str) -> (r: String)
        ensures
            r@ == self.tmpfs_dir@ + "/"@ + rest@,
    {
        let mut s = self.tmpfs_dir.clone();
        s.append("/");
        s.append(rest);
        s
    }

    /// `tmpfs_dir/dir/symbol.json`.
    fn symbol_file(&self, dir: &str, symbol: &str) -> (r: String)
        ensures
            r@ == self.tmpfs_dir@ + "/"@ + dir@ + "/"@ + symbol@ + ".json"@,
    {
        let mut s = self.under(dir);
        s.append("/");
        s.append(symbol);
        s.append(".json");
        s
    }

    /// Where the account is kept.
    pub fn account_path(&self) -> (r: String)
        ensures
            r@ == self.tmpfs_dir@ + "/"@ + "account.json"@,
    {
        self.under("account.json")
    }

    /// Where the positions are kept.
    pub fn positions_path(&self) -> (r: String)
        ensures
            r@ == self.tmpfs_dir@ + "/"@ + "positions.json"@,
    {
        self.under("positions.json")
    }

    /// Where the tradable pairs are kept.
    pub fn trading_pairs_path(&self) -> (r: String)
        ensures
            r@ == self.tmpfs_dir@ + "/"@ + "trading_pairs.json"@,
    {
        self.under("trading_pairs.json")
    }

    /// Where a channel ("minute" or "daily") is kept; another type is an error.
    pub fn channel_path(&self, channel_type: &str) -> (r: Result<String, EngineError>)
        ensures
            channel_type@ == "minute"@ ==> (r matches Ok(p) && p@ == self.tmpfs_dir@ + "/"@ + "channel/minute.json"@),
            channel_type@ == "daily"@ ==> (r matches Ok(p) && p@ == self.tmpfs_dir@ + "/"@ + "channel/daily.json"@),
            channel_type@ != "minute"@ && channel_type@ != "daily"@ ==> (r matches Err(EngineError::MemoryBackup(m))
                && m@ == unknown_text("未知通道类型: "@, channel_type@)),
    {
        proof {
            reveal_strlit("minute");
            reveal_strlit("daily");
            assert("minute"@.len() != "daily"@.len());
        }
        if str_eq(channel_type, "minute") {
            Ok(self.under("channel/minute.json"))
        } else if str_eq(channel_type, "daily") {
            Ok(self.under("channel/daily.json"))
        } else {
            let mut m = "未知通道类型: ".to_string();
            m.append(channel_type);
            Err(EngineError::MemoryBackup(m))
        }
    }

    /// Where the order book of a symbol is kept.
    pub fn depth_path(&self, symbol: &str) -> (r: String)
        ensures
            r@ == self.tmpfs_dir@ + "/"@ + "depth"@ + "/"@ + symbol@ + ".json"@,
    {
        self.symbol_file("depth", symbol)
    }

    /// The first trade CSV file of a symbol.
    pub fn trades_path(&self, symbol: &str) -> (r: String)
        ensures
            r@ == self.tmpfs_dir@ + "/"@ + "trades"@ + "/"@ + symbol@ + ".csv"@,
    {
        let mut s = self.under("trades");
        s.append("/");
        s.append(symbol);
        s.append(".csv");
        s
    }

    /// Where the rules of a symbol are kept.
    pub fn rules_path(&self, symbol: &str) -> (r: String)
        ensures
            r@ == self.tmpfs_dir@ + "/"@ + "rules"@ + "/"@ + symbol@ + ".json"@,
    {
        self.symbol_file("rules", symbol)
    }

    /// The directory for bars of a period ("1m", "1d") and kind ("realtime",
    /// "history").
    pub fn get_kline_dir(&self, period: &str, data_type: &str) -> (r: String)
        ensures
            r@ == kline_dir_text(period@, data_type@),
    {
        let minute = str_eq(period, "1m");
        let day = str_eq(period, "1d");
        let realtime = str_eq(data_type, "realtime");
        let history = str_eq(data_type, "history");
        if minute && history {
            KLINE_1M_HISTORY_DIR.to_string()
        } else if day && realtime {
            KLINE_1D_REALTIME_DIR.to_string()
        } else if day && history {
            KLINE_1D_HISTORY_DIR.to_string()
        } else {
            KLINE_1M_REALTIME_DIR.to_string()
        }
    }

    /// The directory for indicators of a period and kind.
    pub fn get_indicators_dir(&self, period: &str, data_type: &str) -> (r: String)
        ensures
            r@ == indicators_dir_text(period@, data_type@),
    {
        let minute = str_eq(period, "1m");
        let day = str_eq(period, "1d");
        let realtime = str_eq(data_type, "realtime");
        let history = str_eq(data_type, "history");
        if minute && history {
            INDICATORS_1M_HISTORY_DIR.to_string()
        } else if day && realtime {
            INDICATORS_1D_REALTIME_DIR.to_string()
        } else if day && history {
            INDICATORS_1D_HISTORY_DIR.to_string()
        } else {
            INDICATORS_1M_REALTIME_DIR.to_string()
        }
    }

    /// Where the bars of a symbol are kept: the directory without its slash.
    pub fn kline_path(&self, symbol: &str, period: &str, data_type: &str) -> (r: String)
        ensures
            ({
                let d = kline_dir_text(period@, data_type@);
                r@ == self.tmpfs_dir@ + "/"@ + trim_slashes(d) + "/"@ + symbol@ + ".json"@
            }),
    {
        let dir = self.get_kline_dir(period, data_type);
        let name = dir_name(dir.as_str());
        self.symbol_file(name.as_str(), symbol)
    }

    /// Where the indicators of a symbol are kept.
    pub fn indicators_path(&self, symbol: &str, period: &str, data_type: &str) -> (r: String)
        ensures
            ({
                let d = indicators_dir_text(period@, data_type@);
                r@ == self.tmpfs_dir@ + "/"@ + trim_slashes(d) + "/"@ + symbol@ + ".json"@
            }),
    {
        let dir = self.get_indicators_dir(period, data_type);
        let name = dir_name(dir.as_str());
        self.symbol_file(name.as_str(), symbol)
    }

    /// Where a task pool ("minute" or "daily") is kept; another type is an error.
    pub fn task_pool_path(&self, pool_type: &str) -> (r: Result<String, EngineError>)
        ensures
            pool_type@ == "minute"@ ==> (r matches Ok(p) && p@ == self.tmpfs_dir@ + "/"@ + "tasks/minute//pool.json"@),
            pool_type@ == "daily"@ ==> (r matches Ok(p) && p@ == self.tmpfs_dir@ + "/"@ + "tasks/daily//pool.json"@),
            pool_type@ != "minute"@ && pool_type@ != "daily"@ ==> (r matches Err(EngineError::MemoryBackup(m))
                && m@ == unknown_text("未知任务池类型: "@, pool_type@)),
    {
        proof {
            reveal_strlit("minute");
            reveal_strlit("daily");
            assert("minute"@.len() != "daily"@.len());
        }
        if str_eq(pool_type, "minute") {
            Ok(self.under("tasks/minute//pool.json"))
        } else if str_eq(pool_type, "daily") {
            Ok(self.under("tasks/daily//pool.json"))
        } else {
            let mut m = "未知任务池类型: ".to_string();
            m.append(pool_type);
            Err(EngineError::MemoryBackup(m))
        }
    }

    /// Where a symbol's level lock ("minute" or "hour") is kept; another level is
    /// an error.
    pub fn mutex_path(&self, strategy_level: &str, symbol: &str) -> (r: Result<String, EngineError>)
        ensures
            strategy_level@ == "minute"@ ==> (r matches Ok(p) && p@ == self.tmpfs_dir@ + "/"@ + "mutex/minute"@ + "/"@ + symbol@
                + ".json"@),
            strategy_level@ == "hour"@ ==> (r matches Ok(p) && p@ == self.tmpfs_dir@ + "/"@ + "mutex/hour"@ + "/"@ + symbol@
                + ".json"@),
            strategy_level@ != "minute"@ && strategy_level@ != "hour"@ ==> (r matches Err(EngineError::MemoryBackup(m))
                && m@ == unknown_text("未知策略级别: "@, strategy_level@)),
    {
        proof {
            reveal_strlit("minute");
            reveal_strlit("hour");
            assert("minute"@.len() != "hour"@.len());
        }
        if str_eq(strategy_level, "minute") {
            Ok(self.symbol_file("mutex/minute", symbol))
        } else if str_eq(strategy_level, "hour") {
            Ok(self.symbol_file("mutex/hour", symbol))
        } else {
            let mut m = "未知策略级别: ".to_string();
            m.append(strategy_level);
            Err(EngineError::MemoryBackup(m))
        }
    }

    /// `tmpfs_dir/symbols/<symbol>/<file>`.
    fn symbol_dir_file(&self, symbol: &str, file: &str) -> (r: String)
        ensures
            r@ == self.tmpfs_dir@ + "/symbols/"@ + symbol@ + "/"@ + file@,
    {
        let mut s = self.tmpfs_dir.clone();
        s.append("/symbols/");
        s.append(symbol);
        s.append("/");
        s.append(file);
        s
    }

    /// Where a symbol's bar cache is kept.
    pub fn kxian_path(&self, symbol: &str) -> (r: String)
        ensures
            r@ == self.tmpfs_dir@ + "/symbols/"@ + symbol@ + "/"@ + "kxian.json"@,
    {
        self.symbol_dir_file(symbol, "kxian.json")
    }

    /// Where a symbol's recent trades are kept.
    pub fn realtime_trades_path(&self, symbol: &str) -> (r: String)
        ensures
            r@ == self.tmpfs_dir@ + "/symbols/"@ + symbol@ + "/"@ + "trades.json"@,
    {
        self.symbol_dir_file(symbol, "trades.json")
    }

    /// Where a symbol's position is kept.
    pub fn position_path(&self, symbol: &str) -> (r: String)
        ensures
            r@ == self.tmpfs_dir@ + "/symbols/"@ + symbol@ + "/"@ + "position.json"@,
    {
        self.symbol_dir_file(symbol, "position.json")
    }

    /// Where an order is kept.
    pub fn order_path(&self, order_id: &str) -> (r: String)
        ensures
            r@ == self.tmpfs_dir@ + "/"@ + "order"@ + "/"@ + order_id@ + ".json"@,
    {
        self.symbol_file("order", order_id)
    }

    /// Where a trade is kept.
    pub fn trade_path(&self, trade_id: &str) -> (r: String)
        ensures
            r@ == self.tmpfs_dir@ + "/"@ + "trade"@ + "/"@ + trade_id@ + ".json"@,
    {
        self.symbol_file("trade", trade_id)
    }

    /// Where a symbol's task of a pool ("minute" or "daily") is kept; another pool
    /// type is an error.
    pub fn symbol_task_path(&self, pool_type: &str, symbol: &str) -> (r: Result<String, EngineError>)
        ensures
            pool_type@ == "minute"@ ==> (r matches Ok(p) && p@ == self.tmpfs_dir@ + "/"@ + "tasks/minute/"@ + "/"@ + symbol@
                + ".json"@),
            pool_type@ == "daily"@ ==> (r matches Ok(p) && p@ == self.tmpfs_dir@ + "/"@ + "tasks/daily/"@ + "/"@ + symbol@
                + ".json"@),
            pool_type@ != "minute"@ && pool_type@ != "daily"@ ==> (r matches Err(EngineError::MemoryBackup(m))
                && m@ == unknown_text("未知任务池类型: "@, pool_type@)),
    {
        proof {
            reveal_strlit("minute");
            reveal_strlit("daily");
            assert("minute"@.len() != "daily"@.len());
        }
        if str_eq(pool_type, "minute") {
            Ok(self.symbol_file("tasks/minute/", symbol))
        } else if str_eq(pool_type, "daily") {
            Ok(self.symbol_file("tasks/daily/", symbol))
        } else {
            let mut m = "未知任务池类型: ".to_string();
            m.append(pool_type);
            Err(EngineError::MemoryBackup(m))
        }
    }

    /// The bar cache after saving new bars: each period's new bars are appended,
    /// keeping the newest `MAX_KXIAN_ENTRIES`.
    pub fn merge_kxian(cache: KxianCache, kxian: KxianData) -> (r: KxianCache)
        ensures
            r.m1@ == trimmed(cache.m1@ + kxian.m1@, MAX_KXIAN_ENTRIES as nat),
            r.m5@ == trimmed(cache.m5@ + kxian.m5@, MAX_KXIAN_ENTRIES as nat),
            r.m15@ == trimmed(cache.m15@ + kxian.m15@, MAX_KXIAN_ENTRIES as nat),
            r.d1@ == trimmed(cache.d1@ + kxian.d1@, MAX_KXIAN_ENTRIES as nat),
    {
        let mut data = cache;
        let mut new = kxian;
        data.m1.append(&mut new.m1);
        data.m5.append(&mut new.m5);
        data.m15.append(&mut new.m15);
        data.d1.append(&mut new.d1);
        trim_entries(&mut data.m1, MAX_KXIAN_ENTRIES);
        trim_entries(&mut data.m5, MAX_KXIAN_ENTRIES);
        trim_entries(&mut data.m15, MAX_KXIAN_ENTRIES);
        trim_entries(&mut data.d1, MAX_KXIAN_ENTRIES);
        data
    }

    /// The recent trades after saving new ones: appended, keeping the newest
    /// `MAX_TRADES_ENTRIES`.
    pub fn merge_trades(stored: RealtimeTradesData, incoming: RealtimeTradesData) -> (r: RealtimeTradesData)
        ensures
            r.trades@ == trimmed(stored.trades@ + incoming.trades@, MAX_TRADES_ENTRIES as nat),
    {
        let mut data = stored;
        let mut new = incoming;
        data.trades.append(&mut new.trades);
        trim_entries(&mut data.trades, MAX_TRADES_ENTRIES);
        data
    }

    /// The task pool after saving `incoming` over `stored`: the incoming active tasks
    /// are appended (keeping the newest `MAX_TASKS_ENTRIES`), the counts and time are
    /// taken from `incoming`.
    pub fn merge_task_pool(stored: TaskPool, incoming: TaskPool) -> (r: TaskPool)
        ensures
            r.active_tasks@ == trimmed(stored.active_tasks@ + incoming.active_tasks@, MAX_TASKS_ENTRIES as nat),
            r.completed_count == incoming.completed_count,
            r.failed_count == incoming.failed_count,
            r.updated_at == incoming.updated_at,
            r.pool_type == stored.pool_type,
    {
        let mut data = stored;
        let mut inc = incoming;
        data.active_tasks.append(&mut inc.active_tasks);
        data.completed_count = inc.completed_count;
        data.failed_count = inc.failed_count;
        data.updated_at = inc.updated_at;
        trim_entries(&mut data.active_tasks, MAX_TASKS_ENTRIES);
        data
    }
}

/// `s` without its trailing slashes.
pub open spec fn trim_slashes(s: Seq<char>) -> Seq<char>
    decreases s.len(),
{
    if s.len() > 0 && s.last() == '/' {
        trim_slashes(s.drop_last())
    } else {
        s
    }
}

/// A directory name without its trailing slashes.
fn dir_name(dir: &str) -> (r: String)
    ensures
        r@ == trim_slashes(dir@),
{
    let n = dir.unicode_len();
    let mut k: usize = n;
    proof {
        assert(dir@.subrange(0, n as int) =~= dir@);
    }
    while k > 0 && dir.get_char(k - 1) == '/'
        invariant
            k <= n,
            n == dir@.len(),
            trim_slashes(dir@) == trim_slashes(dir@.subrange(0, k as int)),
        decreases k,
    {
        proof {
            assert(dir@.subrange(0, k as int).drop_last() =~= dir@.subrange(0, k - 1));
        }
        k = k - 1;
    }
    dir.substring_char(0, k).to_string()
}

/// The `index`-th trade file of `base`.
pub fn csv_part_path(base: &str, index: usize) -> (r: String)
    ensures
        r@ == csv_part_text(base@, index as nat),
{
    if index <= 1 {
        return base.to_string();
    }
    let n = base.unicode_len();
    let stem = if n >= 4 && str_eq(base.substring_char(n - 4, n), ".csv") {
        base.substring_char(0, n - 4)
    } else {
        base
    };
    let mut s = stem.to_string();
    s.append("_");
    let digits = zero_padded(index as u64, 3);
    s.append(digits.as_str());
    s.append(".csv");
    s
}

/// One step of finding the trade file to append to: a file that does not exist or
/// is not yet full is used; a full one sends the search to the next index, and past
/// `MAX_CSV_FILES` files the search fails.
pub fn csv_index_step(index: usize, file_exists: bool, size: u64) -> (r: CsvIndexStep)
    requires
        1 <= index <= MAX_CSV_FILES,
    ensures
        !file_exists || size < MAX_CSV_FILE_SIZE ==> r == CsvIndexStep::Use(index),
        file_exists && size >= MAX_CSV_FILE_SIZE && index + 1 <= MAX_CSV_FILES ==> r == CsvIndexStep::Next(
            (index + 1) as usize,
        ),
        file_exists && size >= MAX_CSV_FILE_SIZE && index + 1 > MAX_CSV_FILES ==> (r matches CsvIndexStep::TooMany(EngineError::MemoryBackup(m))
            && m@ == too_many_csv_text((index + 1) as nat)),
{
    if !file_exists || size < MAX_CSV_FILE_SIZE {
        return CsvIndexStep::Use(index);
    }
    let next = index + 1;
    if next > MAX_CSV_FILES {
        let mut m = "CSV 文件数量超过限制: ".to_string();
        let digits = decimal_text(next as u64);
        m.append(digits.as_str());
        CsvIndexStep::TooMany(EngineError::MemoryBackup(m))
    } else {
        CsvIndexStep::Next(next)
    }
}

/// After appending, a trade file that reached `MAX_CSV_FILE_SIZE` is rolled over: the
/// next file is started with the header.
pub fn needs_rollover(size: u64) -> (r: bool)
    ensures
        r == (size >= MAX_CSV_FILE_SIZE),
{
    size >= MAX_CSV_FILE_SIZE
}

/// What a failed load means: a file that could not be opened is simply missing
/// (`Ok(None)`); any other error stays an error.
pub fn handle_load_error<T>(e: EngineError) -> (r: Result<Option<T>, EngineError>)
    ensures
        is_open_failure(e) ==> (r matches Ok(None)),
        !is_open_failure(e) ==> r == Err::<Option<T>, EngineError>(e),
{
    if let EngineError::MemoryBackup(msg) = &e {
        if str_contains(msg.as_str(), "打开文件失败") {
            return Ok(None);
        }
    }
    Err(e)
}

} // verus!
