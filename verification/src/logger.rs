//! The application log: its levels, the manager's state, and the text of
//! every kind of log line. Writing the lines out is left to the caller.
use vstd::prelude::*;
use crate::error::AppError;
use crate::text::{decimal, u64_to_decimal};

verus! {

/// How important a log line is, from most verbose to most severe.
#[derive(Debug, Clone, Copy, PartialEq, Eq, Structural)]
pub enum Level {
    TRACE,
    DEBUG,
    INFO,
    WARN,
    ERROR,
}

/// The log level a user can pick.
#[derive(Debug, Clone, Copy, PartialEq, Eq, Structural)]
pub enum LogLevel {
    Trace,
    Debug,
    Info,
    Warn,
    Error,
}

pub open spec fn level_of(l: LogLevel) -> Level {
    match l {
        LogLevel::Trace => Level::TRACE,
        LogLevel::Debug => Level::DEBUG,
        LogLevel::Info => Level::INFO,
        LogLevel::Warn => Level::WARN,
        LogLevel::Error => Level::ERROR,
    }
}

impl From<LogLevel> for Level {
    fn from(level: LogLevel) -> (r: Level) {
        match level {
            LogLevel::Trace => Level::TRACE,
            LogLevel::Debug => Level::DEBUG,
            LogLevel::Info => Level::INFO,
            LogLevel::Warn => Level::WARN,
            LogLevel::Error => Level::ERROR,
        }
    }
}

impl vstd::std_specs::convert::FromSpecImpl<LogLevel> for Level {
    open spec fn obeys_from_spec() -> bool {
        true
    }

    open spec fn from_spec(level: LogLevel) -> Level {
        level_of(level)
    }
}

/// How a level is written in debug form, as in `Level(Info)`.
pub open spec fn level_debug_name(l: Level) -> Seq<char> {
    match l {
        Level::TRACE => "Level(Trace)"@,
        Level::DEBUG => "Level(Debug)"@,
        Level::INFO => "Level(Info)"@,
        Level::WARN => "Level(Warn)"@,
        Level::ERROR => "Level(Error)"@,
    }
}

impl Level {
    /// The debug form of the level.
    pub fn debug_name(&self) -> (r: &'static str)
        ensures
            r@ == level_debug_name(*self),
    {
        match self {
            Level::TRACE => "Level(Trace)",
            Level::DEBUG => "Level(Debug)",
            Level::INFO => "Level(Info)",
            Level::WARN => "Level(Warn)",
            Level::ERROR => "Level(Error)",
        }
    }
}

/// One line to write to the log.
#[derive(Debug)]
pub struct LogRecord {
    pub level: Level,
    pub message: String,
}

/// The log manager: the level it was set up with and whether the log
/// output has been installed.
#[derive(Debug)]
pub struct LoggerManager {
    log_level: Level,
    initialized: bool,
}

pub open spec fn user_action_message(action: Seq<char>, details: Option<Seq<char>>) -> Seq<char> {
    match details {
        Some(d) => "用户操作 - "@ + action + ": "@ + d,
        None => "用户操作 - "@ + action,
    }
}

/// The line written when the application shuts down.
pub fn log_app_shutdown() -> (r: LogRecord)
    ensures
        r.level == Level::INFO && r.message@ == "应用关闭"@,
{
    LogRecord { level: Level::INFO, message: String::from_str("应用关闭") }
}

/// The line written when a recording starts.
pub fn log_recording_start(room_id: u64, quality: &str, file_path: &str) -> (r: LogRecord)
    ensures
        r.level == Level::INFO,
        r.message@ == "开始录制 - 房间: "@ + decimal(room_id as nat) + ", 质量: "@ + quality@
            + ", 文件: "@ + file_path@,
{
    let mut m = String::from_str("开始录制 - 房间: ");
    let id = u64_to_decimal(room_id);
    m.append(id.as_str());
    m.append(", 质量: ");
    m.append(quality);
    m.append(", 文件: ");
    m.append(file_path);
    LogRecord { level: Level::INFO, message: m }
}

/// The line written when a recording stops.
pub fn log_recording_stop(room_id: u64) -> (r: LogRecord)
    ensures
        r.level == Level::INFO,
        r.message@ == "停止录制 - 房间: "@ + decimal(room_id as nat),
{
    let mut m = String::from_str("停止录制 - 房间: ");
    let id = u64_to_decimal(room_id);
    m.append(id.as_str());
    LogRecord { level: Level::INFO, message: m }
}

/// The line written when a recording fails.
pub fn log_recording_error(room_id: u64, error: &str) -> (r: LogRecord)
    ensures
        r.level == Level::ERROR,
        r.message@ == "录制错误 - 房间: "@ + decimal(room_id as nat) + ", 错误: "@ + error@,
{
    let mut m = String::from_str("录制错误 - 房间: ");
    let id = u64_to_decimal(room_id);
    m.append(id.as_str());
    m.append(", 错误: ");
    m.append(error);
    LogRecord { level: Level::ERROR, message: m }
}

/// The line written for an outgoing request.
pub fn log_network_request(url: &str, method: &str) -> (r: LogRecord)
    ensures
        r.level == Level::DEBUG,
        r.message@ == "网络请求 - "@ + method@ + " "@ + url@,
{
    let mut m = String::from_str("网络请求 - ");
    m.append(method);
    m.append(" ");
    m.append(url);
    LogRecord { level: Level::DEBUG, message: m }
}

/// The line written for a received answer.
pub fn log_network_response(status: u16, duration_ms: u64) -> (r: LogRecord)
    ensures
        r.level == Level::DEBUG,
        r.message@ == "网络响应 - 状态: "@ + decimal(status as nat) + ", 耗时: "@ + decimal(
            duration_ms as nat,
        ) + "ms"@,
{
    let mut m = String::from_str("网络响应 - 状态: ");
    let st = u64_to_decimal(status as u64);
    m.append(st.as_str());
    m.append(", 耗时: ");
    let d = u64_to_decimal(duration_ms);
    m.append(d.as_str());
    m.append("ms");
    LogRecord { level: Level::DEBUG, message: m }
}

/// The line written when a setting changes.
pub fn log_config_change(key: &str, value: &str) -> (r: LogRecord)
    ensures
        r.level == Level::INFO,
        r.message@ == "配置变更 - "@ + key@ + ": "@ + value@,
{
    let mut m = String::from_str("配置变更 - ");
    m.append(key);
    m.append(": ");
    m.append(value);
    LogRecord { level: Level::INFO, message: m }
}

/// The line written for something the user did, with details when given.
pub fn log_user_action(action: &str, details: Option<&str>) -> (r: LogRecord)
    ensures
        r.level == Level::INFO,
        r.message@ == user_action_message(
            action@,
            match details {
                Some(d) => Some(d@),
                None => None,
            },
        ),
{
    let mut m = String::from_str("用户操作 - ");
    m.append(action);
    if let Some(d) = details {
        m.append(": ");
        m.append(d);
    }
    LogRecord { level: Level::INFO, message: m }
}

/// The error reported when the shared log manager cannot be locked for
/// writing, with the lock's own explanation.
pub fn lock_failure(detail: &str) -> (r: AppError)
    ensures
        r matches AppError::Unknown(m) && m@ == "无法获取日志管理器写锁: "@ + detail@,
{
    let mut m = String::from_str("无法获取日志管理器写锁: ");
    m.append(detail);
    AppError::Unknown(m)
}

impl LoggerManager {
    pub closed spec fn spec_level(&self) -> Level {
        self.log_level
    }

    pub closed spec fn spec_initialized(&self) -> bool {
        self.initialized
    }

    /// A manager at the given level whose output is not installed yet.
    pub fn new(log_level: Level) -> (r: Result<Self, AppError>)
        ensures
            r matches Ok(m) && m.spec_level() == log_level && !m.spec_initialized(),
    {
        Ok(LoggerManager { log_level, initialized: false })
    }

    /// The level the manager was set up with.
    pub fn log_level(&self) -> (r: Level)
        ensures
            r == self.spec_level(),
    {
        self.log_level
    }

    /// Whether the log output still has to be installed.
    pub fn needs_init(&self) -> (r: bool)
        ensures
            r == !self.spec_initialized(),
    {
        !self.initialized
    }

    /// Records the outcome of installing the log output: on success the
    /// manager counts as initialized; a failure is reported with its reason.
    /// An initialized manager stays so whatever the outcome.
    pub fn complete_init(&mut self, outcome: Result<(), String>) -> (r: Result<(), AppError>)
        ensures
            final(self).spec_level() == old(self).spec_level(),
            old(self).spec_initialized() ==> r is Ok && final(self).spec_initialized(),
            !old(self).spec_initialized() ==> match outcome {
                Ok(_) => r is Ok && final(self).spec_initialized(),
                Err(e) => !final(self).spec_initialized() && (r matches Err(AppError::Unknown(m))
                    && m@ == "无法设置日志订阅者: "@ + e@),
            },
    {
        if self.initialized {
            return Ok(());
        }
        match outcome {
            Ok(_) => {
                self.initialized = true;
                Ok(())
            },
            Err(e) => {
                let mut m = String::from_str("无法设置日志订阅者: ");
                m.append(e.as_str());
                Err(AppError::Unknown(m))
            },
        }
    }

    /// Sets the level the manager keeps.
    pub fn set_log_level(&mut self, level: LogLevel)
        ensures
            final(self).spec_level() == level_of(level),
            final(self).spec_initialized() == old(self).spec_initialized(),
    {
        self.log_level = level.into();
    }

    /// The lines written when the application starts: its version, then the log level.
    pub fn log_app_start(&self, version: &str) -> (r: Vec<LogRecord>)
        ensures
            r@.len() == 2,
            r@[0].level == Level::INFO && r@[0].message@ == "应用启动 - 版本: "@ + version@,
            r@[1].level == Level::INFO && r@[1].message@ == "日志级别: "@ + level_debug_name(
                self.spec_level(),
            ),
    {
        let mut first = String::from_str("应用启动 - 版本: ");
        first.append(version);
        let mut second = String::from_str("日志级别: ");
        second.append(self.log_level.debug_name());
        let mut v = Vec::new();
        v.push(LogRecord { level: Level::INFO, message: first });
        v.push(LogRecord { level: Level::INFO, message: second });
        v
    }

    /// The line written when the application shuts down.
    pub fn log_app_shutdown(&self) -> (r: LogRecord)
        ensures
            r.level == Level::INFO && r.message@ == "应用关闭"@,
    {
        log_app_shutdown()
    }

    /// The line written when a recording starts.
    pub fn log_recording_start(&self, room_id: u64, quality: &str, file_path: &str) -> (r: LogRecord)
        ensures
            r.level == Level::INFO,
            r.message@ == "开始录制 - 房间: "@ + decimal(room_id as nat) + ", 质量: "@ + quality@
                + ", 文件: "@ + file_path@,
    {
        log_recording_start(room_id, quality, file_path)
    }

    /// The line written when a recording stops.
    pub fn log_recording_stop(&self, room_id: u64) -> (r: LogRecord)
        ensures
            r.level == Level::INFO,
            r.message@ == "停止录制 - 房间: "@ + decimal(room_id as nat),
    {
        log_recording_stop(room_id)
    }

    /// The line written when a recording fails.
    pub fn log_recording_error(&self, room_id: u64, error: &str) -> (r: LogRecord)
        ensures
            r.level == Level::ERROR,
            r.message@ == "录制错误 - 房间: "@ + decimal(room_id as nat) + ", 错误: "@ + error@,
    {
        log_recording_error(room_id, error)
    }

    /// The line written for an outgoing request.
    pub fn log_network_request(&self, url: &str, method: &str) -> (r: LogRecord)
        ensures
            r.level == Level::DEBUG,
            r.message@ == "网络请求 - "@ + method@ + " "@ + url@,
    {
        log_network_request(url, method)
    }

    /// The line written for a received answer.
    pub fn log_network_response(&self, status: u16, duration_ms: u64) -> (r: LogRecord)
        ensures
            r.level == Level::DEBUG,
            r.message@ == "网络响应 - 状态: "@ + decimal(status as nat) + ", 耗时: "@ + decimal(
                duration_ms as nat,
            ) + "ms"@,
    {
        log_network_response(status, duration_ms)
    }

    /// The line written when a setting changes.
    pub fn log_config_change(&self, key: &str, value: &str) -> (r: LogRecord)
        ensures
            r.level == Level::INFO,
            r.message@ == "配置变更 - "@ + key@ + ": "@ + value@,
    {
        log_config_change(key, value)
    }

    /// The line written for something the user did, with details when given.
    pub fn log_user_action(&self, action: &str, details: Option<&str>) -> (r: LogRecord)
        ensures
            r.level == Level::INFO,
            r.message@ == user_action_message(
                action@,
                match details {
                    Some(d) => Some(d@),
                    None => None,
                },
            ),
    {
        log_user_action(action, details)
    }
}

impl Default for LoggerManager {
    fn default() -> (r: Self)
        ensures
            r.spec_level() == Level::INFO && !r.spec_initialized(),
    {
        LoggerManager { log_level: Level::INFO, initialized: false }
    }
}

} // verus!
