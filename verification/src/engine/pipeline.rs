//! The trading pipeline of one symbol: indicator, strategy and risk stages run in
//! turn over a check table, each able to stop the tick; when all pass, the strategy's
//! entry becomes an order.
use vstd::prelude::*;
use crate::decimal::{Dec, mul_spec, product_in_range, rd_text_prec};
use crate::engine::check_table::{CheckTable, CheckEntry, PineColor};
use crate::engine::checkpoint::{CheckpointLogger, Stage, StageResult};
use crate::engine::strategy_types::{OrderRequest, OrderType, Side, Signal};

verus! {

/// A price tick.
#[derive(Debug, Clone)]
pub struct Tick {
    pub symbol: String,
    pub price: Dec,
    pub qty: Dec,
    /// Seconds.
    pub timestamp: i64,
}

/// A stage of the pipeline.
pub trait Processor {
    /// Whether the stage can run on the table and tick at all (an arithmetic limit of
    /// the stage).
    spec fn accepts(&self, check_table: CheckTable, tick: Tick) -> bool;

    /// Whether one run of the stage on the table `before` and the tick may pass or
    /// fail as `passed` says and leave the table `after`.
    spec fn outcome(&self, before: CheckTable, tick: Tick, passed: bool, after: CheckTable) -> bool;

    /// Runs the stage on a tick; the table keeps one entry per key, and the run is
    /// one of the stage's outcomes.
    fn process(&mut self, check_table: &mut CheckTable, tick: &Tick) -> (r: StageResult)
        requires
            old(check_table).wf(),
            old(self).accepts(*old(check_table), *tick),
        ensures
            final(check_table).wf(),
            old(self).outcome(*old(check_table), *tick, r.passed, *final(check_table)),
    ;
}

/// The order for an entry: entries and hedges become market orders at the entry's
/// price and quantity, long or short; other signals give none.
pub open spec fn order_for(entry: Option<CheckEntry>, symbol: String) -> Option<OrderRequest> {
    match entry {
        Some(e) => match e.final_signal {
            Signal::LongEntry | Signal::LongHedge => Some(
                OrderRequest {
                    symbol,
                    side: Side::Long,
                    order_type: OrderType::Market,
                    price: Some(e.target_price),
                    qty: e.quantity,
                },
            ),
            Signal::ShortEntry | Signal::ShortHedge => Some(
                OrderRequest {
                    symbol,
                    side: Side::Short,
                    order_type: OrderType::Market,
                    price: Some(e.target_price),
                    qty: e.quantity,
                },
            ),
            _ => None,
        },
        None => None,
    }
}

/// The full pipeline.  Each stage is any `Processor`, `dyn Processor` included.
pub struct Pipeline<I: Processor + ?Sized, S: Processor + ?Sized, R: Processor + ?Sized> {
    pub check_table: CheckTable,
    pub logger: Box<dyn CheckpointLogger>,
    pub indicator_processor: Box<I>,
    pub strategy_processor: Box<S>,
    pub risk_processor: Box<R>,
    pub symbol: String,
}

impl<I: Processor + ?Sized, S: Processor + ?Sized, R: Processor + ?Sized> Pipeline<I, S, R> {
    pub fn new(
        symbol: String,
        logger: Box<dyn CheckpointLogger>,
        indicator_processor: Box<I>,
        strategy_processor: Box<S>,
        risk_processor: Box<R>,
    ) -> (r: Pipeline<I, S, R>)
        ensures
            r.symbol == symbol,
            r.indicator_processor == indicator_processor,
            r.strategy_processor == strategy_processor,
            r.risk_processor == risk_processor,
            r.check_table.wf(),
            r.check_table.entries@.len() == 0,
            r.check_table.round_id == 0,
    {
        Pipeline {
            check_table: CheckTable::new(),
            logger,
            indicator_processor,
            strategy_processor,
            risk_processor,
            symbol,
        }
    }

    /// The key of the entry that orders come from: the symbol's "main"/"1m" entry.
    pub open spec fn order_key(self) -> (Seq<char>, Seq<char>, Seq<char>) {
        (self.symbol@, "main"@, "1m"@)
    }

    /// Every stage can run on the table it would get: the indicator stage on the
    /// pipeline's table, the strategy stage on any table a passing indicator stage may
    /// leave, and the risk stage on any table a passing strategy stage then may leave.
    pub open spec fn stages_accept(self, tick: Tick) -> bool {
        &&& self.indicator_processor.accepts(self.check_table, tick)
        &&& forall|t1: CheckTable|
            #[trigger] self.indicator_processor.outcome(self.check_table, tick, true, t1) ==> {
                &&& self.strategy_processor.accepts(t1, tick)
                &&& forall|t2: CheckTable|
                    #[trigger] self.strategy_processor.outcome(t1, tick, true, t2) ==> self.risk_processor.accepts(
                        t2,
                        tick,
                    )
            }
    }

    /// What a tick may end with, the order `r` and the pipeline `after`, from this
    /// pipeline: the indicator, strategy and risk stages run in turn, each on the
    /// table the one before left, each as one of its outcomes.  The first stage that
    /// fails ends the tick with no order and its table, and the later stages are not
    /// run: their processors are left as they were.  When all three pass, the order
    /// is `order_for` the last table's entry.  So an order comes back exactly when
    /// every stage passed and the entry gives one.
    pub open spec fn tick_outcome(self, tick: Tick, r: Option<OrderRequest>, after: Self) -> bool {
        exists|p1: bool, t1: CheckTable|
            #[trigger] self.indicator_processor.outcome(self.check_table, tick, p1, t1) && if !p1 {
                &&& r is None
                &&& after.check_table == t1
                &&& after.strategy_processor == self.strategy_processor
                &&& after.risk_processor == self.risk_processor
            } else {
                exists|p2: bool, t2: CheckTable|
                    #[trigger] self.strategy_processor.outcome(t1, tick, p2, t2) && if !p2 {
                        &&& r is None
                        &&& after.check_table == t2
                        &&& after.risk_processor == self.risk_processor
                    } else {
                        exists|p3: bool, t3: CheckTable|
                            #[trigger] self.risk_processor.outcome(t2, tick, p3, t3) && after.check_table == t3 && r
                                == if p3 {
                                order_for(t3.entry_of(self.order_key()), self.symbol)
                            } else {
                                None
                            }
                    }
            }
    }

    /// Runs one stage (0: indicator, 1: strategy, 2: risk): logs its pass line and,
    /// when it failed, its blocked line (with `fallback` for a missing reason) and the
    /// checkpoint.  Returns whether it passed.
    fn run_stage(&mut self, which: u8, stage: Stage, fallback: &str, tick: &Tick, results: &mut Vec<StageResult>) -> (r: bool)
        requires
            which < 3,
            old(self).check_table.wf(),
            which == 0 ==> old(self).indicator_processor.accepts(old(self).check_table, *tick),
            which == 1 ==> old(self).strategy_processor.accepts(old(self).check_table, *tick),
            which == 2 ==> old(self).risk_processor.accepts(old(self).check_table, *tick),
        ensures
            final(self).check_table.wf(),
            final(self).symbol == old(self).symbol,
            which == 0 ==> old(self).indicator_processor.outcome(old(self).check_table, *tick, r, final(self).check_table),
            which == 1 ==> old(self).strategy_processor.outcome(old(self).check_table, *tick, r, final(self).check_table),
            which == 2 ==> old(self).risk_processor.outcome(old(self).check_table, *tick, r, final(self).check_table),
            which != 1 ==> final(self).strategy_processor == old(self).strategy_processor,
            which != 2 ==> final(self).risk_processor == old(self).risk_processor,
    {
        let res = if which == 0 {
            self.indicator_processor.process(&mut self.check_table, tick)
        } else if which == 1 {
            self.strategy_processor.process(&mut self.check_table, tick)
        } else {
            self.risk_processor.process(&mut self.check_table, tick)
        };
        self.logger.log_pass(stage, self.symbol.as_str(), res.details.as_str());
        let passed = res.passed;
        let reason = match &res.blocked_reason {
            Some(b) => b.clone(),
            None => fallback.to_string(),
        };
        results.push(res);
        if !passed {
            self.logger.log_blocked(stage, self.symbol.as_str(), reason.as_str());
            self.logger.log_checkpoint(self.symbol.as_str(), results, Some(stage));
        }
        passed
    }

    /// Runs a tick through the stages; a failing stage stops it with no order and the
    /// later stages do not run.  When all pass, the order comes from the table's
    /// "main"/"1m" entry of the symbol (`tick_outcome`).
    pub fn process(&mut self, tick: &Tick) -> (r: Option<OrderRequest>)
        requires
            old(self).check_table.wf(),
            old(self).stages_accept(*tick),
        ensures
            final(self).check_table.wf(),
            final(self).symbol == old(self).symbol,
            old(self).tick_outcome(*tick, r, *final(self)),
    {
        let ghost t0 = self.check_table;
        let mut stage_results: Vec<StageResult> = Vec::new();
        let mut all_passed = self.run_stage(0, Stage::Indicator, "指标计算失败", tick, &mut stage_results);
        let ghost p1 = all_passed;
        let ghost t1 = self.check_table;
        assert(old(self).indicator_processor.outcome(t0, *tick, p1, t1));
        if !all_passed {
            return self.order_after_stages(false);
        }
        all_passed = self.run_stage(1, Stage::Strategy, "策略判断失败", tick, &mut stage_results);
        let ghost p2 = all_passed;
        let ghost t2 = self.check_table;
        assert(old(self).strategy_processor.outcome(t1, *tick, p2, t2));
        if !all_passed {
            return self.order_after_stages(false);
        }
        all_passed = self.run_stage(2, Stage::RiskPre, "风控预检失败", tick, &mut stage_results);
        let ghost p3 = all_passed;
        let ghost t3 = self.check_table;
        if all_passed {
            self.logger.log_checkpoint(self.symbol.as_str(), &stage_results, None);
        }
        let r = self.order_after_stages(all_passed);
        assert(old(self).risk_processor.outcome(t2, *tick, p3, t3));
        r
    }

    /// What a tick ends with once the stages have run: no order when a stage stopped
    /// it; otherwise the order for the table's "main"/"1m" entry of the symbol.
    pub fn order_after_stages(&self, all_passed: bool) -> (r: Option<OrderRequest>)
        requires
            self.check_table.wf(),
        ensures
            r == if all_passed {
                order_for(self.check_table.entry_of((self.symbol@, "main"@, "1m"@)), self.symbol)
            } else {
                None
            },
    {
        if !all_passed {
            return None;
        }
        self.build_order_request()
    }

    /// The order for the table's "main"/"1m" entry of the symbol.
    fn build_order_request(&self) -> (r: Option<OrderRequest>)
        requires
            self.check_table.wf(),
        ensures
            r == order_for(self.check_table.entry_of((self.symbol@, "main"@, "1m"@)), self.symbol),
    {
        proof {
            reveal_strlit("main");
            reveal_strlit("1m");
        }
        let entry = match self.check_table.get(self.symbol.as_str(), "main", "1m") {
            Some(e) => e,
            None => return None,
        };
        let side = match entry.final_signal {
            Signal::LongEntry | Signal::LongHedge => Side::Long,
            Signal::ShortEntry | Signal::ShortHedge => Side::Short,
            _ => return None,
        };
        Some(
            OrderRequest {
                symbol: self.symbol.clone(),
                side,
                order_type: OrderType::Market,
                price: Some(entry.target_price),
                qty: entry.quantity,
            },
        )
    }

    pub fn check_table(&self) -> (r: &CheckTable)
        ensures
            *r == self.check_table,
    {
        &self.check_table
    }

    /// The check table, to change it in place.
    pub fn check_table_mut(&mut self) -> (r: &mut CheckTable)
        ensures
            *r == old(self).check_table,
            final(self).check_table == *final(r),
            final(self).symbol == old(self).symbol,
    {
        &mut self.check_table
    }
}

/// A logger that reports nothing.
pub struct NoOpLogger;

impl NoOpLogger {
    pub fn new() -> (r: NoOpLogger) {
        NoOpLogger
    }
}

impl Default for NoOpLogger {
    fn default() -> (r: NoOpLogger) {
        NoOpLogger::new()
    }
}

impl CheckpointLogger for NoOpLogger {
    fn log_start(&self, stage: Stage, symbol: &str) {
    }

    fn log_pass(&self, stage: Stage, symbol: &str, details: &str) {
    }

    fn log_blocked(&self, stage: Stage, symbol: &str, reason: &str) {
    }

    fn log_checkpoint(&self, symbol: &str, results: &Vec<StageResult>, blocked_at: Option<Stage>) {
    }
}

/// `r` is the result of a configured stage: passed with its details, or failed with
/// its reason (`fallback` when none).
pub open spec fn configured_result(
    r: StageResult,
    stage: Stage,
    should_pass: bool,
    details: String,
    blocked_reason: Option<String>,
    fallback: Seq<char>,
) -> bool {
    &&& r.stage == stage
    &&& r.passed == should_pass
    &&& should_pass ==> r.details@ == details@ && r.blocked_reason is None
    &&& !should_pass ==> r.details@.len() == 0 && r.blocked_reason is Some && r.blocked_reason.unwrap()@
        == match blocked_reason {
        Some(b) => b@,
        None => fallback,
    }
}

/// The result of a configured stage: passed with its details, or failed with its
/// reason (`fallback` when none).
fn configured(stage: Stage, should_pass: bool, details: &String, blocked_reason: &Option<String>, fallback: &str) -> (r: StageResult)
    ensures
        configured_result(r, stage, should_pass, *details, *blocked_reason, fallback@),
{
    if should_pass {
        StageResult::pass(stage, details.as_str())
    } else {
        match blocked_reason {
            Some(b) => StageResult::fail(stage, b.as_str()),
            None => StageResult::fail(stage, fallback),
        }
    }
}

/// An indicator stage with a set outcome.
pub struct MockIndicatorProcessor {
    pub should_pass: bool,
    pub details: String,
    pub blocked_reason: Option<String>,
}

impl MockIndicatorProcessor {
    pub fn new_pass(details: &str) -> (r: MockIndicatorProcessor)
        ensures
            r.should_pass,
            r.details@ == details@,
            r.blocked_reason is None,
    {
        MockIndicatorProcessor { should_pass: true, details: details.to_string(), blocked_reason: None }
    }

    pub fn new_blocking(reason: &str) -> (r: MockIndicatorProcessor)
        ensures
            !r.should_pass,
            r.details@.len() == 0,
            r.blocked_reason is Some && r.blocked_reason.unwrap()@ == reason@,
    {
        MockIndicatorProcessor { should_pass: false, details: String::new(), blocked_reason: Some(reason.to_string()) }
    }
}

impl Processor for MockIndicatorProcessor {
    open spec fn accepts(&self, check_table: CheckTable, tick: Tick) -> bool {
        true
    }

    /// Passes as set, writing nothing.
    open spec fn outcome(&self, before: CheckTable, tick: Tick, passed: bool, after: CheckTable) -> bool {
        passed == self.should_pass && after == before
    }

    /// The set outcome; nothing is written.
    fn process(&mut self, check_table: &mut CheckTable, tick: &Tick) -> (r: StageResult)
        ensures
            *final(self) == *old(self),
            *final(check_table) == *old(check_table),
            configured_result(
                r,
                Stage::Indicator,
                old(self).should_pass,
                old(self).details,
                old(self).blocked_reason,
                "指标失败"@,
            ),
    {
        configured(Stage::Indicator, self.should_pass, &self.details, &self.blocked_reason, "指标失败")
    }
}

/// `e` is the entry a passing strategy stage writes: the signal as both signals of the
/// symbol's "main"/"1m" entry, RSI and price position 50, a neutral colour, an order
/// for 0.1 at the tick's price, no risk flag, slow channel, in round `round_id`.
pub open spec fn strategy_entry(e: CheckEntry, signal: Signal, tick: Tick, round_id: u64) -> bool {
    &&& e.symbol == tick.symbol
    &&& e.strategy_id@ == "main"@
    &&& e.period@ == "1m"@
    &&& e.ema_signal == signal
    &&& e.final_signal == signal
    &&& e.rsi_value.mant() == 50 && e.rsi_value.scl() == 0
    &&& e.pine_color == PineColor::Neutral
    &&& e.price_position.mant() == 50 && e.price_position.scl() == 0
    &&& e.target_price == tick.price
    &&& e.quantity.mant() == 1 && e.quantity.scl() == 1
    &&& !e.risk_flag
    &&& e.timestamp == tick.timestamp
    &&& e.round_id == round_id
    &&& !e.is_high_freq
}

/// A strategy stage with a set outcome; when it passes it writes its signal as the
/// symbol's "main"/"1m" entry at the tick's price, for 0.1.
pub struct MockStrategyProcessor {
    pub should_pass: bool,
    pub signal: Signal,
    pub details: String,
    pub blocked_reason: Option<String>,
}

impl MockStrategyProcessor {
    pub fn new_pass(signal: Signal, details: &str) -> (r: MockStrategyProcessor)
        ensures
            r.should_pass,
            r.signal == signal,
            r.details@ == details@,
            r.blocked_reason is None,
    {
        MockStrategyProcessor { should_pass: true, signal, details: details.to_string(), blocked_reason: None }
    }

    pub fn new_blocking(reason: &str) -> (r: MockStrategyProcessor)
        ensures
            !r.should_pass,
            r.signal == Signal::LongEntry,
            r.details@.len() == 0,
            r.blocked_reason is Some && r.blocked_reason.unwrap()@ == reason@,
    {
        MockStrategyProcessor {
            should_pass: false,
            signal: Signal::LongEntry,
            details: String::new(),
            blocked_reason: Some(reason.to_string()),
        }
    }

    /// Passes with a signal that places no order.
    pub fn new_hold() -> (r: MockStrategyProcessor)
        ensures
            r.should_pass,
            r.signal == Signal::LongExit,
            r.details@ == "Signal=HOLD"@,
            r.blocked_reason is None,
    {
        MockStrategyProcessor {
            should_pass: true,
            signal: Signal::LongExit,
            details: "Signal=HOLD".to_string(),
            blocked_reason: None,
        }
    }
}

impl Processor for MockStrategyProcessor {
    /// Passing starts a new round, so the round counter must not be full.
    open spec fn accepts(&self, check_table: CheckTable, tick: Tick) -> bool {
        self.should_pass ==> check_table.round_id < u64::MAX
    }

    /// Fails as set, writing nothing; passing, a new round and the signal written as
    /// the symbol's "main"/"1m" entry (`strategy_entry`), other entries kept.
    open spec fn outcome(&self, before: CheckTable, tick: Tick, passed: bool, after: CheckTable) -> bool {
        let key = (tick.symbol@, "main"@, "1m"@);
        &&& passed == self.should_pass
        &&& !passed ==> after == before
        &&& passed ==> {
            &&& after.round_id == before.round_id + 1
            &&& after.entry_of(key) matches Some(e) && strategy_entry(e, self.signal, tick, after.round_id)
            &&& forall|k: (Seq<char>, Seq<char>, Seq<char>)| k != key ==> #[trigger] after.entry_of(k)
                == before.entry_of(k)
        }
    }

    /// Failing, the set reason and nothing written; passing, a new round and the
    /// signal written as the symbol's "main"/"1m" entry (`strategy_entry`).
    fn process(&mut self, check_table: &mut CheckTable, tick: &Tick) -> (r: StageResult)
        ensures
            *final(self) == *old(self),
            !old(self).should_pass ==> *final(check_table) == *old(check_table) && configured_result(
                r,
                Stage::Strategy,
                false,
                old(self).details,
                old(self).blocked_reason,
                "策略失败"@,
            ),
            old(self).should_pass ==> {
                let key = (tick.symbol@, "main"@, "1m"@);
                &&& r.stage == Stage::Strategy
                &&& r.passed
                &&& r.details@ == old(self).details@
                &&& r.blocked_reason is None
                &&& final(check_table).round_id == old(check_table).round_id + 1
                &&& final(check_table).entry_of(key) matches Some(e) && strategy_entry(
                    e,
                    old(self).signal,
                    *tick,
                    final(check_table).round_id,
                )
                &&& forall|k: (Seq<char>, Seq<char>, Seq<char>)| k != key ==> final(check_table).entry_of(k)
                    == old(check_table).entry_of(k)
            },
    {
        if !self.should_pass {
            return configured(Stage::Strategy, false, &self.details, &self.blocked_reason, "策略失败");
        }
        proof {
            reveal_strlit("main");
            reveal_strlit("1m");
        }
        let round_id = check_table.next_round_id();
        let entry = CheckEntry {
            symbol: tick.symbol.clone(),
            strategy_id: "main".to_string(),
            period: "1m".to_string(),
            ema_signal: self.signal,
            rsi_value: Dec::from_int(50),
            pine_color: PineColor::Neutral,
            price_position: Dec::from_int(50),
            final_signal: self.signal,
            target_price: tick.price.copy(),
            quantity: Dec::new(1, 1),
            risk_flag: false,
            timestamp: tick.timestamp,
            round_id,
            is_high_freq: false,
        };
        check_table.fill(entry);
        StageResult::pass(Stage::Strategy, self.details.as_str())
    }
}

/// A risk stage with a set outcome.
pub struct MockRiskProcessor {
    pub should_pass: bool,
    pub details: String,
    pub blocked_reason: Option<String>,
}

impl MockRiskProcessor {
    pub fn new_pass(details: &str) -> (r: MockRiskProcessor)
        ensures
            r.should_pass,
            r.details@ == details@,
            r.blocked_reason is None,
    {
        MockRiskProcessor { should_pass: true, details: details.to_string(), blocked_reason: None }
    }

    pub fn new_blocking(reason: &str) -> (r: MockRiskProcessor)
        ensures
            !r.should_pass,
            r.details@.len() == 0,
            r.blocked_reason is Some && r.blocked_reason.unwrap()@ == reason@,
    {
        MockRiskProcessor { should_pass: false, details: String::new(), blocked_reason: Some(reason.to_string()) }
    }
}

impl Processor for MockRiskProcessor {
    open spec fn accepts(&self, check_table: CheckTable, tick: Tick) -> bool {
        true
    }

    /// Passes as set, writing nothing.
    open spec fn outcome(&self, before: CheckTable, tick: Tick, passed: bool, after: CheckTable) -> bool {
        passed == self.should_pass && after == before
    }

    /// The set outcome; nothing is written.
    fn process(&mut self, check_table: &mut CheckTable, tick: &Tick) -> (r: StageResult)
        ensures
            *final(self) == *old(self),
            *final(check_table) == *old(check_table),
            configured_result(
                r,
                Stage::RiskPre,
                old(self).should_pass,
                old(self).details,
                old(self).blocked_reason,
                "风控失败"@,
            ),
    {
        configured(Stage::RiskPre, self.should_pass, &self.details, &self.blocked_reason, "风控失败")
    }
}

/// The default indicator stage: reports EMA values derived from the price.
pub struct DefaultIndicatorProcessor;

impl DefaultIndicatorProcessor {
    pub fn new() -> (r: DefaultIndicatorProcessor) {
        DefaultIndicatorProcessor
    }
}

/// "EMA12=<price * 0.99> EMA26=<price> RSI=50.00", to two places.
pub open spec fn default_indicator_details(price: Dec) -> Seq<char> {
    let ema12 = mul_spec(price, Dec::of_parts(99, 2));
    "EMA12="@ + rd_text_prec(ema12.mant(), ema12.scl(), 2) + " EMA26="@ + rd_text_prec(price.mant(), price.scl(), 2)
        + " RSI=50.00"@
}

impl DefaultIndicatorProcessor {
    /// The details of the default indicator stage for a price.
    pub fn details_for(price: &Dec) -> (r: String)
        requires
            product_in_range(*price, Dec::of_parts(99, 2)),
        ensures
            r@ == default_indicator_details(*price),
    {
        let factor = Dec::new(99, 2);
        proof {
            Dec::lemma_of_parts(99, 2);
            Dec::lemma_parts_eq(factor, Dec::of_parts(99, 2));
        }
        let ema12 = price.mul(&factor);
        proof {
            use_type_invariant(&ema12);
            use_type_invariant(price);
            crate::decimal::lemma_text_fits(ema12);
            crate::decimal::lemma_text_fits(*price);
        }
        let mut s = "EMA12=".to_string();
        let t1 = ema12.to_text_prec(2);
        s.append(t1.as_str());
        s.append(" EMA26=");
        let t2 = price.to_text_prec(2);
        s.append(t2.as_str());
        s.append(" RSI=50.00");
        s
    }
}

impl Processor for DefaultIndicatorProcessor {
    /// The price times 0.99 stays within the decimal range.
    open spec fn accepts(&self, check_table: CheckTable, tick: Tick) -> bool {
        product_in_range(tick.price, Dec::of_parts(99, 2))
    }

    /// Passes, writing nothing.
    open spec fn outcome(&self, before: CheckTable, tick: Tick, passed: bool, after: CheckTable) -> bool {
        passed && after == before
    }

    /// Passes with `default_indicator_details` of the tick's price; nothing is written.
    fn process(&mut self, check_table: &mut CheckTable, tick: &Tick) -> (r: StageResult)
        ensures
            *final(check_table) == *old(check_table),
            r.stage == Stage::Indicator,
            r.passed,
            r.details@ == default_indicator_details(tick.price),
            r.blocked_reason is None,
    {
        let details = DefaultIndicatorProcessor::details_for(&tick.price);
        StageResult::pass(Stage::Indicator, details.as_str())
    }
}

/// The default strategy stage: holds.
pub struct DefaultStrategyProcessor;

impl DefaultStrategyProcessor {
    pub fn new() -> (r: DefaultStrategyProcessor) {
        DefaultStrategyProcessor
    }
}

impl Processor for DefaultStrategyProcessor {
    open spec fn accepts(&self, check_table: CheckTable, tick: Tick) -> bool {
        true
    }

    /// Passes, writing nothing.
    open spec fn outcome(&self, before: CheckTable, tick: Tick, passed: bool, after: CheckTable) -> bool {
        passed && after == before
    }

    /// Passes with "Signal=HOLD"; nothing is written.
    fn process(&mut self, check_table: &mut CheckTable, tick: &Tick) -> (r: StageResult)
        ensures
            *final(check_table) == *old(check_table),
            r.stage == Stage::Strategy,
            r.passed,
            r.details@ == "Signal=HOLD"@,
            r.blocked_reason is None,
    {
        StageResult::pass(Stage::Strategy, "Signal=HOLD")
    }
}

/// The default risk stage: passes.
pub struct DefaultRiskProcessor;

impl DefaultRiskProcessor {
    pub fn new() -> (r: DefaultRiskProcessor) {
        DefaultRiskProcessor
    }
}

impl Processor for DefaultRiskProcessor {
    open spec fn accepts(&self, check_table: CheckTable, tick: Tick) -> bool {
        true
    }

    /// Passes, writing nothing.
    open spec fn outcome(&self, before: CheckTable, tick: Tick, passed: bool, after: CheckTable) -> bool {
        passed && after == before
    }

    /// Passes with "OK"; nothing is written.
    fn process(&mut self, check_table: &mut CheckTable, tick: &Tick) -> (r: StageResult)
        ensures
            *final(check_table) == *old(check_table),
            r.stage == Stage::RiskPre,
            r.passed,
            r.details@ == "OK"@,
            r.blocked_reason is None,
    {
        StageResult::pass(Stage::RiskPre, "OK")
    }
}

} // verus!
