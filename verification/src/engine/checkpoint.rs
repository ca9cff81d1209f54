//! Checkpoints of the pipeline stages: what each stage decided, and loggers that
//! report it.
use vstd::prelude::*;
use crate::clock::local_time_text;
use crate::console::eprint_line;

verus! {

/// A stage of the pipeline.
#[derive(Debug, Clone, Copy, PartialEq, Eq, Structural)]
pub enum Stage {
    Indicator,
    Strategy,
    RiskPre,
    RiskRe,
    Order,
}

/// The display name of a stage.
pub open spec fn stage_text(s: Stage) -> Seq<char> {
    match s {
        Stage::Indicator => "指标"@,
        Stage::Strategy => "策略"@,
        Stage::RiskPre => "风控预检"@,
        Stage::RiskRe => "风控复核"@,
        Stage::Order => "订单"@,
    }
}

/// The debug name of a stage.
pub open spec fn stage_debug(s: Stage) -> Seq<char> {
    match s {
        Stage::Indicator => "Indicator"@,
        Stage::Strategy => "Strategy"@,
        Stage::RiskPre => "RiskPre"@,
        Stage::RiskRe => "RiskRe"@,
        Stage::Order => "Order"@,
    }
}

impl Stage {
    /// The display name.
    pub fn to_string(&self) -> (r: &'static str)
        ensures
            r@ == stage_text(*self),
    {
        match self {
            Stage::Indicator => "指标",
            Stage::Strategy => "策略",
            Stage::RiskPre => "风控预检",
            Stage::RiskRe => "风控复核",
            Stage::Order => "订单",
        }
    }

    /// The debug name.
    pub fn debug_name(&self) -> (r: &'static str)
        ensures
            r@ == stage_debug(*self),
    {
        match self {
            Stage::Indicator => "Indicator",
            Stage::Strategy => "Strategy",
            Stage::RiskPre => "RiskPre",
            Stage::RiskRe => "RiskRe",
            Stage::Order => "Order",
        }
    }
}

/// The result of one stage.
#[derive(Debug, Clone)]
pub struct StageResult {
    pub stage: Stage,
    pub passed: bool,
    pub details: String,
    pub blocked_reason: Option<String>,
}

impl StageResult {
    /// A stage that passed.
    pub fn pass(stage: Stage, details: &str) -> (r: StageResult)
        ensures
            r.stage == stage,
            r.passed,
            r.details@ == details@,
            r.blocked_reason is None,
    {
        StageResult { stage, passed: true, details: details.to_string(), blocked_reason: None }
    }

    /// A stage that stopped the pipeline.
    pub fn fail(stage: Stage, reason: &str) -> (r: StageResult)
        ensures
            r.stage == stage,
            !r.passed,
            r.details@.len() == 0,
            r.blocked_reason is Some && r.blocked_reason.unwrap()@ == reason@,
    {
        StageResult { stage, passed: false, details: String::new(), blocked_reason: Some(reason.to_string()) }
    }
}

/// The summary of a stage: its debug name with "=OK" or "=BLOCKED".
pub open spec fn stage_summary(r: StageResult) -> Seq<char> {
    stage_debug(r.stage) + if r.passed { "=OK"@ } else { "=BLOCKED"@ }
}

/// The summaries of all stages, in order.
pub fn stage_summaries(results: &Vec<StageResult>) -> (r: Vec<String>)
    ensures
        r@.len() == results@.len(),
        forall|i: int| 0 <= i < results@.len() ==> #[trigger] r@[i]@ == stage_summary(results@[i]),
{
    let mut out: Vec<String> = Vec::new();
    let mut i: usize = 0;
    while i < results.len()
        invariant
            i <= results@.len(),
            out@.len() == i,
            forall|j: int| 0 <= j < i ==> #[trigger] out@[j]@ == stage_summary(results@[j]),
        decreases results@.len() - i,
    {
        let r = &results[i];
        let mut s = r.stage.debug_name().to_string();
        if r.passed {
            s.append("=OK");
        } else {
            s.append("=BLOCKED");
        }
        out.push(s);
        i = i + 1;
    }
    out
}

/// Reports the stages of the pipeline.
pub trait CheckpointLogger {
    /// A stage started.
    fn log_start(&self, stage: Stage, symbol: &str);

    /// A stage passed.
    fn log_pass(&self, stage: Stage, symbol: &str, details: &str);

    /// A stage stopped the pipeline.
    fn log_blocked(&self, stage: Stage, symbol: &str, reason: &str);

    /// The results of all stages.
    fn log_checkpoint(&self, symbol: &str, results: &Vec<StageResult>, blocked_at: Option<Stage>);
}

/// "[time] [symbol] [mark stage suffix] text".
pub open spec fn console_line(
    time: Seq<char>,
    symbol: Seq<char>,
    mark: Seq<char>,
    stage: Stage,
    suffix: Seq<char>,
    text: Seq<char>,
) -> Seq<char> {
    "["@ + time + "] ["@ + symbol + "] ["@ + mark + stage_text(stage) + suffix + "]"@ + text
}

/// Builds a console line.
pub fn console_line_text(time: &str, symbol: &str, mark: &str, stage: Stage, suffix: &str, text: &str) -> (r: String)
    ensures
        r@ == console_line(time@, symbol@, mark@, stage, suffix@, text@),
{
    let mut s = "[".to_string();
    s.append(time);
    s.append("] [");
    s.append(symbol);
    s.append("] [");
    s.append(mark);
    s.append(stage.to_string());
    s.append(suffix);
    s.append("]");
    s.append(text);
    s
}

/// The line of a stage in the checkpoint summary: passed with its details, or blocked
/// with its reason (its details without one).
pub open spec fn result_line(r: StageResult) -> Seq<char> {
    if r.passed {
        "  ├─ [✔ "@ + stage_text(r.stage) + "] "@ + r.details@
    } else {
        "  ├─ [✘ "@ + stage_text(r.stage) + "] "@ + match r.blocked_reason {
            Some(b) => b@,
            None => r.details@,
        }
    }
}

pub fn result_line_text(r: &StageResult) -> (s: String)
    ensures
        s@ == result_line(*r),
{
    if r.passed {
        let mut s = "  ├─ [✔ ".to_string();
        s.append(r.stage.to_string());
        s.append("] ");
        s.append(r.details.as_str());
        s
    } else {
        let mut s = "  ├─ [✘ ".to_string();
        s.append(r.stage.to_string());
        s.append("] ");
        match &r.blocked_reason {
            Some(b) => s.append(b.as_str()),
            None => s.append(r.details.as_str()),
        }
        s
    }
}

/// The lines of a checkpoint summary after its header: the results up to and
/// including the first blocked one.
pub open spec fn summary_lines(results: Seq<StageResult>) -> Seq<Seq<char>>
    decreases results.len(),
{
    if results.len() == 0 {
        Seq::empty()
    } else if results[0].passed {
        seq![result_line(results[0])] + summary_lines(results.drop_first())
    } else {
        seq![result_line(results[0])]
    }
}

/// The checkpoint summary's lines, without the header.
pub fn checkpoint_lines(results: &Vec<StageResult>, blocked_at: Option<Stage>) -> (r: Vec<String>)
    ensures
        r@.len() >= 1,
        r@.drop_last().map_values(|x: String| x@) == summary_lines(results@),
        r@.last()@ == match blocked_at {
            Some(b) => "  └─ [BLOCKED] 数据停止传递 - 原因: "@ + stage_text(b),
            None => "  └─ [COMPLETE] Pipeline 完成"@,
        },
{
    let mut out: Vec<String> = Vec::new();
    let mut i: usize = 0;
    let mut done = false;
    proof {
        assert(results@.skip(0) =~= results@);
        assert(out@.map_values(|x: String| x@) =~= Seq::<Seq<char>>::empty());
    }
    while i < results.len() && !done
        invariant
            i <= results@.len(),
            done ==> i > 0 && !results@[i - 1].passed,
            !done ==> forall|j: int| 0 <= j < i ==> results@[j].passed,
            out@.map_values(|x: String| x@) + (if done { Seq::<Seq<char>>::empty() } else {
                summary_lines(results@.skip(i as int))
            }) == summary_lines(results@),
        decreases results@.len() - i,
    {
        proof {
            assert(results@.skip(i as int).drop_first() =~= results@.skip(i as int + 1));
            assert(results@.skip(i as int)[0] == results@[i as int]);
        }
        let r = &results[i];
        let line = result_line_text(r);
        let ghost before = out@;
        out.push(line);
        proof {
            assert(out@.map_values(|x: String| x@) =~= before.map_values(|x: String| x@).push(result_line(results@[i as int])));
        }
        if !r.passed {
            done = true;
        }
        i = i + 1;
        proof {
            if done {
                assert(summary_lines(results@.skip(i as int - 1)) =~= seq![result_line(results@[i as int - 1])]);
            } else {
                assert(summary_lines(results@.skip(i as int - 1)) =~= seq![result_line(results@[i as int - 1])]
                    + summary_lines(results@.skip(i as int)));
            }
        }
    }
    proof {
        if !done {
            assert(results@.skip(i as int) =~= Seq::<StageResult>::empty());
        }
        assert(out@.map_values(|x: String| x@) =~= summary_lines(results@));
    }
    let last = match blocked_at {
        Some(b) => {
            let mut s = "  └─ [BLOCKED] 数据停止传递 - 原因: ".to_string();
            s.append(b.to_string());
            s
        },
        None => "  └─ [COMPLETE] Pipeline 完成".to_string(),
    };
    let ghost body = out@;
    out.push(last);
    proof {
        assert(out@.drop_last() =~= body);
    }
    out
}

/// Writes the stages to standard error, each line stamped with the local time.
pub struct ConsoleCheckpointLogger;

impl ConsoleCheckpointLogger {
    pub fn new() -> (r: ConsoleCheckpointLogger) {
        ConsoleCheckpointLogger
    }
}

impl Default for ConsoleCheckpointLogger {
    fn default() -> (r: ConsoleCheckpointLogger) {
        ConsoleCheckpointLogger::new()
    }
}

impl CheckpointLogger for ConsoleCheckpointLogger {
    fn log_start(&self, stage: Stage, symbol: &str) {
        let t = local_time_text();
        let line = console_line_text(t.as_str(), symbol, "▶ ", stage, " 开始", "");
        eprint_line(line.as_str());
    }

    fn log_pass(&self, stage: Stage, symbol: &str, details: &str) {
        let t = local_time_text();
        let mut text = " ".to_string();
        text.append(details);
        let line = console_line_text(t.as_str(), symbol, "✔ ", stage, "", text.as_str());
        eprint_line(line.as_str());
    }

    fn log_blocked(&self, stage: Stage, symbol: &str, reason: &str) {
        let t = local_time_text();
        let mut text = " ".to_string();
        text.append(reason);
        let line = console_line_text(t.as_str(), symbol, "✘ ", stage, "", text.as_str());
        eprint_line(line.as_str());
    }

    fn log_checkpoint(&self, symbol: &str, results: &Vec<StageResult>, blocked_at: Option<Stage>) {
        let t = local_time_text();
        let mut header = "[".to_string();
        header.append(t.as_str());
        header.append("] [");
        header.append(symbol);
        header.append("] [CHECKPOINT]");
        eprint_line(header.as_str());
        let lines = checkpoint_lines(results, blocked_at);
        let mut i: usize = 0;
        while i < lines.len()
            invariant
                i <= lines@.len(),
            decreases lines@.len() - i,
        {
            eprint_line(lines[i].as_str());
            i = i + 1;
        }
    }
}

/// Reports through structured logging; the structured log itself is written by the
/// application, so here the stages are only passed on.
pub struct TracingCheckpointLogger;

impl TracingCheckpointLogger {
    pub fn new() -> (r: TracingCheckpointLogger) {
        TracingCheckpointLogger
    }
}

impl Default for TracingCheckpointLogger {
    fn default() -> (r: TracingCheckpointLogger) {
        TracingCheckpointLogger::new()
    }
}

impl CheckpointLogger for TracingCheckpointLogger {
    fn log_start(&self, stage: Stage, symbol: &str) {
    }

    fn log_pass(&self, stage: Stage, symbol: &str, details: &str) {
    }

    fn log_blocked(&self, stage: Stage, symbol: &str, reason: &str) {
    }

    fn log_checkpoint(&self, symbol: &str, results: &Vec<StageResult>, blocked_at: Option<Stage>) {
    }
}

/// The loggers of a composite, newest first: each link holds one logger and the
/// chain of those added before it.
pub enum LoggerChain {
    Empty,
    Link(Box<dyn CheckpointLogger>, Box<LoggerChain>),
}

impl LoggerChain {
    /// A new link holding `logger` in front of `chain`.
    fn link(chain: LoggerChain, logger: Box<dyn CheckpointLogger>) -> (r: LoggerChain)
        ensures
            r matches LoggerChain::Link(_, rest) && *rest == chain,
    {
        LoggerChain::Link(logger, Box::new(chain))
    }

    /// Reports the start of a stage to each logger, oldest first.
    fn log_start_all(&self, stage: Stage, symbol: &str)
        decreases self,
    {
        match self {
            LoggerChain::Empty => {},
            LoggerChain::Link(l, rest) => {
                rest.log_start_all(stage, symbol);
                l.log_start(stage, symbol);
            },
        }
    }

    /// Reports a stage's details to each logger, oldest first.
    fn log_pass_all(&self, stage: Stage, symbol: &str, details: &str)
        decreases self,
    {
        match self {
            LoggerChain::Empty => {},
            LoggerChain::Link(l, rest) => {
                rest.log_pass_all(stage, symbol, details);
                l.log_pass(stage, symbol, details);
            },
        }
    }

    /// Reports a blocked stage to each logger, oldest first.
    fn log_blocked_all(&self, stage: Stage, symbol: &str, reason: &str)
        decreases self,
    {
        match self {
            LoggerChain::Empty => {},
            LoggerChain::Link(l, rest) => {
                rest.log_blocked_all(stage, symbol, reason);
                l.log_blocked(stage, symbol, reason);
            },
        }
    }

    /// Reports a checkpoint to each logger, oldest first.
    fn log_checkpoint_all(&self, symbol: &str, results: &Vec<StageResult>, blocked_at: Option<Stage>)
        decreases self,
    {
        match self {
            LoggerChain::Empty => {},
            LoggerChain::Link(l, rest) => {
                rest.log_checkpoint_all(symbol, results, blocked_at);
                l.log_checkpoint(symbol, results, blocked_at);
            },
        }
    }
}

/// A logger as a boxed trait object.
fn boxed_logger<L: CheckpointLogger + 'static>(logger: L) -> Box<dyn CheckpointLogger> {
    Box::new(logger)
}

/// Passes each report on to every logger it holds, in the order they were added.
pub struct CompositeCheckpointLogger {
    pub chain: LoggerChain,
}

impl CompositeCheckpointLogger {
    pub fn new() -> (r: CompositeCheckpointLogger)
        ensures
            r.chain == LoggerChain::Empty,
    {
        CompositeCheckpointLogger { chain: LoggerChain::Empty }
    }

    /// Adds a logger after the others: a new link in front of the chain it had.
    pub fn add<L: CheckpointLogger + 'static>(self, logger: L) -> (r: CompositeCheckpointLogger)
        ensures
            r.chain matches LoggerChain::Link(_, rest) && *rest == self.chain,
    {
        let b = boxed_logger(logger);
        CompositeCheckpointLogger { chain: LoggerChain::link(self.chain, b) }
    }
}

impl Default for CompositeCheckpointLogger {
    fn default() -> (r: CompositeCheckpointLogger)
        ensures
            r.chain == LoggerChain::Empty,
    {
        CompositeCheckpointLogger::new()
    }
}

impl CheckpointLogger for CompositeCheckpointLogger {
    fn log_start(&self, stage: Stage, symbol: &str) {
        self.chain.log_start_all(stage, symbol);
    }

    fn log_pass(&self, stage: Stage, symbol: &str, details: &str) {
        self.chain.log_pass_all(stage, symbol, details);
    }

    fn log_blocked(&self, stage: Stage, symbol: &str, reason: &str) {
        self.chain.log_blocked_all(stage, symbol, reason);
    }

    fn log_checkpoint(&self, symbol: &str, results: &Vec<StageResult>, blocked_at: Option<Stage>) {
        self.chain.log_checkpoint_all(symbol, results, blocked_at);
    }
}

} // verus!
