//! Errors of the engine.
use vstd::prelude::*;

verus! {

/// What went wrong, with a message.
#[derive(Debug, Clone, PartialEq, Eq)]
pub enum EngineError {
    RiskCheckFailed(String),
    OrderExecutionFailed(String),
    LockFailed(String),
    InsufficientFund(String),
    PositionLimitExceeded(String),
    ModeSwitchFailed(String),
    Network(String),
    MemoryBackup(String),
    Other(String),
}

/// The prefix of each kind of error.
pub open spec fn engine_error_prefix(e: EngineError) -> Seq<char> {
    match e {
        EngineError::RiskCheckFailed(_) => "风控检查失败: "@,
        EngineError::OrderExecutionFailed(_) => "订单执行失败: "@,
        EngineError::LockFailed(_) => "锁获取失败: "@,
        EngineError::InsufficientFund(_) => "资金不足: "@,
        EngineError::PositionLimitExceeded(_) => "持仓超出限制: "@,
        EngineError::ModeSwitchFailed(_) => "模式切换失败: "@,
        EngineError::Network(_) => "网络错误: "@,
        EngineError::MemoryBackup(_) => "内存备份错误: "@,
        EngineError::Other(_) => "其他错误: "@,
    }
}

/// The kind of an error, as a number.
pub open spec fn engine_error_kind(e: EngineError) -> int {
    match e {
        EngineError::RiskCheckFailed(_) => 0,
        EngineError::OrderExecutionFailed(_) => 1,
        EngineError::LockFailed(_) => 2,
        EngineError::InsufficientFund(_) => 3,
        EngineError::PositionLimitExceeded(_) => 4,
        EngineError::ModeSwitchFailed(_) => 5,
        EngineError::Network(_) => 6,
        EngineError::MemoryBackup(_) => 7,
        EngineError::Other(_) => 8,
    }
}

impl EngineError {
    /// The message carried by the error.
    pub open spec fn detail(self) -> Seq<char> {
        match self {
            EngineError::RiskCheckFailed(m) => m@,
            EngineError::OrderExecutionFailed(m) => m@,
            EngineError::LockFailed(m) => m@,
            EngineError::InsufficientFund(m) => m@,
            EngineError::PositionLimitExceeded(m) => m@,
            EngineError::ModeSwitchFailed(m) => m@,
            EngineError::Network(m) => m@,
            EngineError::MemoryBackup(m) => m@,
            EngineError::Other(m) => m@,
        }
    }

    /// The kind's prefix followed by the message.
    pub fn to_string(&self) -> (r: String)
        ensures
            r@ == engine_error_prefix(*self) + self.detail(),
    {
        let (prefix, m) = match self {
            EngineError::RiskCheckFailed(m) => ("风控检查失败: ", m),
            EngineError::OrderExecutionFailed(m) => ("订单执行失败: ", m),
            EngineError::LockFailed(m) => ("锁获取失败: ", m),
            EngineError::InsufficientFund(m) => ("资金不足: ", m),
            EngineError::PositionLimitExceeded(m) => ("持仓超出限制: ", m),
            EngineError::ModeSwitchFailed(m) => ("模式切换失败: ", m),
            EngineError::Network(m) => ("网络错误: ", m),
            EngineError::MemoryBackup(m) => ("内存备份错误: ", m),
            EngineError::Other(m) => ("其他错误: ", m),
        };
        let mut s = prefix.to_string();
        s.append(m.as_str());
        s
    }
}

} // verus!
