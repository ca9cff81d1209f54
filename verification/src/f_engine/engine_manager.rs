//! Settings and errors of the manager of engine tasks.
use vstd::prelude::*;

verus! {

/// Settings of the task manager.
#[derive(Debug, Clone)]
pub struct EngineManagerConfig {
    /// Seconds without a heartbeat after which a task counts as dead.
    pub heartbeat_timeout_secs: i64,
    pub max_restart_count: u32,
    /// Seconds to wait for a task to stop.
    pub restart_interval_secs: u64,
}

impl Default for EngineManagerConfig {
    /// A 30 s heartbeat timeout, three restarts, 5 s to stop.
    fn default() -> (r: EngineManagerConfig)
        ensures
            r.heartbeat_timeout_secs == 30,
            r.max_restart_count == 3,
            r.restart_interval_secs == 5,
    {
        EngineManagerConfig { heartbeat_timeout_secs: 30, max_restart_count: 3, restart_interval_secs: 5 }
    }
}

/// Errors of the task manager.
#[derive(Debug, Clone)]
pub enum EngineError {
    AlreadyExists(String),
    NotFound(String),
    RestartLimitExceeded(String),
    ShutdownFailed(String, String),
}

/// The message of an error.
pub open spec fn engine_error_text(e: EngineError) -> Seq<char> {
    match e {
        EngineError::AlreadyExists(id) => "组件 "@ + id@ + " 已存在"@,
        EngineError::NotFound(id) => "组件 "@ + id@ + " 不存在"@,
        EngineError::RestartLimitExceeded(id) => "组件 "@ + id@ + " 重启次数超限"@,
        EngineError::ShutdownFailed(id, why) => "组件 "@ + id@ + " 关闭失败: "@ + why@,
    }
}

impl EngineError {
    /// The message, naming the component.
    pub fn to_string(&self) -> (r: String)
        ensures
            r@ == engine_error_text(*self),
    {
        let mut s = "组件 ".to_string();
        match self {
            EngineError::AlreadyExists(id) => {
                s.append(id.as_str());
                s.append(" 已存在");
            },
            EngineError::NotFound(id) => {
                s.append(id.as_str());
                s.append(" 不存在");
            },
            EngineError::RestartLimitExceeded(id) => {
                s.append(id.as_str());
                s.append(" 重启次数超限");
            },
            EngineError::ShutdownFailed(id, why) => {
                s.append(id.as_str());
                s.append(" 关闭失败: ");
                s.append(why.as_str());
            },
        }
        s
    }
}

} // verus!
