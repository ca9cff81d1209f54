//! The contracts between the engine and its strategies, market data and check
//! tables: the shared enums and results.
use vstd::prelude::*;
use crate::decimal::Dec;
use crate::text::{decimal_text, decimal_digits};

verus! {

/// The direction of a trading signal.
#[derive(Debug, Clone, Copy, PartialEq, Eq, Structural)]
pub enum SignalDirection {
    Long,
    Short,
    Flat,
}

impl Default for SignalDirection {
    /// Flat.
    fn default() -> (r: SignalDirection)
        ensures
            r == SignalDirection::Flat,
    {
        SignalDirection::Flat
    }
}

/// What a trading signal does to a position.
#[derive(Debug, Clone, Copy, PartialEq, Eq, Structural)]
pub enum SignalType {
    Open,
    Add,
    Reduce,
    Close,
}

impl Default for SignalType {
    /// Close.
    fn default() -> (r: SignalType)
        ensures
            r == SignalType::Close,
    {
        SignalType::Close
    }
}

/// The state of a strategy.
#[derive(Debug, Clone, Copy, PartialEq, Eq, Structural)]
pub enum StrategyStatus {
    Idle,
    Running,
    Waiting,
    Error,
}

/// The market as a strategy sees it.
#[derive(Debug, Clone, Copy, PartialEq, Eq, Structural)]
pub enum MarketStatusType {
    Pin,
    Trend,
    Range,
}

/// A volatility level.
#[derive(Debug, Clone, Copy, PartialEq, Eq, Structural)]
pub enum VolatilityLevel {
    High,
    Normal,
    Low,
}

/// The result of a check table.
#[derive(Debug, Clone)]
pub struct CheckTableResult {
    pub passed: bool,
    /// Why it failed, when it did.
    pub reject_reason: Option<String>,
    /// Milliseconds the check took.
    pub execution_time_ms: u64,
}

/// The settings of a check table.
#[derive(Debug, Clone)]
pub struct CheckTableConfig {
    pub id: String,
    /// Milliseconds.
    pub timeout_ms: u64,
}

/// A bar as every market data source delivers it.
#[derive(Debug, Clone)]
pub struct MarketKLine {
    pub symbol: String,
    pub period: String,
    pub open: Dec,
    pub high: Dec,
    pub low: Dec,
    pub close: Dec,
    pub volume: Dec,
    /// Seconds.
    pub timestamp: i64,
    pub is_closed: bool,
}

/// A tick as every market data source delivers it.
#[derive(Debug, Clone)]
pub struct MarketTick {
    pub symbol: String,
    pub price: Dec,
    pub qty: Dec,
    /// Seconds.
    pub timestamp: i64,
}

/// One price level of an order book.
#[derive(Debug, Clone)]
pub struct OrderBookLevel {
    pub price: Dec,
    pub qty: Dec,
}

/// An order book at one moment.
#[derive(Debug, Clone)]
pub struct OrderBookSnapshot {
    pub symbol: String,
    pub bids: Vec<OrderBookLevel>,
    pub asks: Vec<OrderBookLevel>,
    /// Seconds.
    pub timestamp: i64,
}

/// Order books, for callers that provide them.
pub trait OrderBookProvider {
    /// The current book of `symbol`.
    fn snapshot(&self, symbol: &str) -> Option<OrderBookSnapshot>;

    /// The gap between the best ask and the best bid.
    fn spread(&self, symbol: &str) -> Option<Dec>;
}

/// Market depth, for callers that provide it.
pub trait MarketDepthProvider {
    /// The best bid and ask.
    fn best_bid_ask(&self, symbol: &str) -> Option<(Dec, Dec)>;

    /// The quantity available to buy and to sell within `depth` of the price.
    fn liquidity(&self, symbol: &str, depth: Dec) -> (Dec, Dec);
}

/// A signal of a strategy.
#[derive(Debug, Clone)]
pub struct TradingSignal {
    pub id: String,
    pub symbol: String,
    pub direction: SignalDirection,
    pub signal_type: SignalType,
    pub quantity: Dec,
    /// Absent for a market order.
    pub price: Option<Dec>,
    pub stop_loss: Option<Dec>,
    pub take_profit: Option<Dec>,
    /// Higher goes first.
    pub priority: u8,
    /// 0 to 100.
    pub confidence: u8,
    /// Seconds.
    pub timestamp: i64,
}

/// What the engine knows of a strategy.
#[derive(Debug, Clone)]
pub struct StrategyState {
    pub id: String,
    pub name: String,
    pub enabled: bool,
    pub position_direction: SignalDirection,
    pub position_qty: Dec,
    pub status: StrategyStatus,
    /// Seconds.
    pub last_signal_time: Option<i64>,
}

/// Merges the signals of several strategies, for callers that provide it.
pub trait SignalAggregator {
    /// The signals to act on.
    fn aggregate(&self, signals: Vec<TradingSignal>) -> Vec<TradingSignal>;

    /// The most signals `aggregate` returns.
    fn max_signals(&self) -> usize;
}

/// The period of a bar of the data source.
#[derive(Debug, Clone, Copy, PartialEq, Eq, Structural)]
pub enum SourcePeriod {
    /// So many minutes.
    Minute(u32),
    Day,
}

/// A tick of the data source: what the adapter reads of it.
#[derive(Debug, Clone)]
pub struct SourceTick {
    pub symbol: String,
    pub price: Dec,
    pub qty: Dec,
    /// Seconds.
    pub timestamp: i64,
}

/// A bar of the data source: what the adapter reads of it.
#[derive(Debug, Clone)]
pub struct SourceKLine {
    pub symbol: String,
    pub period: SourcePeriod,
    pub open: Dec,
    pub high: Dec,
    pub low: Dec,
    pub close: Dec,
    pub volume: Dec,
    /// Seconds.
    pub timestamp: i64,
}

/// The name of a period: the minutes followed by "m", or "1d".
pub open spec fn period_text(p: SourcePeriod) -> Seq<char> {
    match p {
        SourcePeriod::Minute(m) => decimal_digits(m as nat) + "m"@,
        SourcePeriod::Day => "1d"@,
    }
}

/// Turns market data records into the engine's records.
pub struct MarketDataAdapter;

impl MarketDataAdapter {
    /// The tick as the engine's record.
    pub fn adapt_tick(tick: &SourceTick) -> (r: MarketTick)
        ensures
            r.symbol == tick.symbol,
            r.price == tick.price,
            r.qty == tick.qty,
            r.timestamp == tick.timestamp,
    {
        MarketTick {
            symbol: tick.symbol.clone(),
            price: tick.price.clone(),
            qty: tick.qty.clone(),
            timestamp: tick.timestamp,
        }
    }

    /// The bar as the engine's record, its period named by `period_text`.
    pub fn adapt_kline(kline: &SourceKLine, is_closed: bool) -> (r: MarketKLine)
        ensures
            r.symbol == kline.symbol,
            r.period@ == period_text(kline.period),
            r.open == kline.open,
            r.high == kline.high,
            r.low == kline.low,
            r.close == kline.close,
            r.volume == kline.volume,
            r.timestamp == kline.timestamp,
            r.is_closed == is_closed,
    {
        let period = match kline.period {
            SourcePeriod::Minute(m) => {
                let mut t = decimal_text(m as u64);
                t.append("m");
                t
            },
            SourcePeriod::Day => "1d".to_string(),
        };
        MarketKLine {
            symbol: kline.symbol.clone(),
            period,
            open: kline.open.clone(),
            high: kline.high.clone(),
            low: kline.low.clone(),
            close: kline.close.clone(),
            volume: kline.volume.clone(),
            timestamp: kline.timestamp,
            is_closed,
        }
    }
}

/// Turns exchange records into the engine's records.
pub struct CommonAdapter;

} // verus!
