//! The logger: levels, the publish threshold, message formatting with optional ANSI colors, and
//! the decision of where each message goes (nowhere, a custom handler, stdout or stderr). Writing
//! the message out, and calling a custom handler, are the application's part: each logging method
//! returns the [`LogAction`] to perform.

use vstd::prelude::*;
use vstd::string::*;

verus! {

/// Log levels, in increasing order of severity.
#[derive(Debug, Clone, Copy, PartialEq, Eq, Structural)]
pub enum LogLevel {
    /// Verbose diagnostics.
    Debug,
    /// Informational messages.
    Info,
    /// Success messages (reported as `Info` to a custom handler).
    Success,
    /// Warnings.
    Warn,
    /// Errors.
    Error,
}

/// A level's place in the severity order.
pub open spec fn level_rank(l: LogLevel) -> nat {
    match l {
        LogLevel::Debug => 0,
        LogLevel::Info => 1,
        LogLevel::Success => 2,
        LogLevel::Warn => 3,
        LogLevel::Error => 4,
    }
}

/// A level's label.
pub open spec fn level_label(l: LogLevel) -> Seq<char> {
    match l {
        LogLevel::Debug => "DEBUG"@,
        LogLevel::Info => "INFO"@,
        LogLevel::Success => "SUCCESS"@,
        LogLevel::Warn => "WARN"@,
        LogLevel::Error => "ERROR"@,
    }
}

/// A level's ANSI color.
pub open spec fn level_color(l: LogLevel) -> Seq<char> {
    match l {
        LogLevel::Debug => "\x1b[35m"@,
        LogLevel::Info => "\x1b[34m"@,
        LogLevel::Success => "\x1b[32m"@,
        LogLevel::Warn => "\x1b[33m"@,
        LogLevel::Error => "\x1b[31m"@,
    }
}

impl LogLevel {
    /// The level's place in the severity order (`Debug` is 0, `Error` is 4).
    pub fn index(self) -> (r: usize)
        ensures
            r == level_rank(self),
    {
        match self {
            LogLevel::Debug => 0,
            LogLevel::Info => 1,
            LogLevel::Success => 2,
            LogLevel::Warn => 3,
            LogLevel::Error => 4,
        }
    }

    /// The uppercase label shown in output.
    pub fn label(self) -> (r: &'static str)
        ensures
            r@ == level_label(self),
    {
        match self {
            LogLevel::Debug => "DEBUG",
            LogLevel::Info => "INFO",
            LogLevel::Success => "SUCCESS",
            LogLevel::Warn => "WARN",
            LogLevel::Error => "ERROR",
        }
    }

    /// The ANSI color of the label: magenta, blue, green, yellow, red.
    pub fn color(self) -> (r: &'static str)
        ensures
            r@ == level_color(self),
    {
        match self {
            LogLevel::Debug => "\x1b[35m",
            LogLevel::Info => "\x1b[34m",
            LogLevel::Success => "\x1b[32m",
            LogLevel::Warn => "\x1b[33m",
            LogLevel::Error => "\x1b[31m",
        }
    }
}

/// Whether a message at `level` passes the threshold `current`: it does when it is at least as
/// severe.
pub open spec fn publishes(current: LogLevel, level: LogLevel) -> bool {
    level_rank(level) >= level_rank(current)
}

/// Whether a message at `level` is published under the threshold `current`.
pub fn should_publish_log(current: LogLevel, level: LogLevel) -> (b: bool)
    ensures
        b == publishes(current, level),
{
    level.index() >= current.index()
}

/// Lowering the threshold never hides a published message: what is published under a threshold
/// is published under every less severe one.
pub proof fn lemma_publish_monotone(lower: LogLevel, higher: LogLevel, level: LogLevel)
    requires
        level_rank(lower) <= level_rank(higher),
        publishes(higher, level),
    ensures
        publishes(lower, level),
{
}

/// The severity order is total and strict: two levels with the same rank are the same level.
pub proof fn lemma_rank_injective(a: LogLevel, b: LogLevel)
    requires
        level_rank(a) == level_rank(b),
    ensures
        a == b,
{
}

/// Logger configuration. A custom handler, when the application configures one, is held by the
/// application; `has_handler` records that there is one.
#[derive(Debug, Clone, Copy, PartialEq, Eq, Structural)]
pub struct Logger {
    /// Disable all logging.
    pub disabled: Option<bool>,
    /// Force colors off (`true`) or on (`false`); detected from the terminal when `None`.
    pub disable_colors: Option<bool>,
    /// The minimum level to publish (defaults to `Warn`).
    pub level: Option<LogLevel>,
    /// Whether a custom handler receives the messages instead of the console.
    pub has_handler: bool,
}

impl Default for Logger {
    fn default() -> (r: Self)
        ensures
            r.disabled is None,
            r.disable_colors is None,
            r.level is None,
            !r.has_handler,
    {
        Logger { disabled: None, disable_colors: None, level: None, has_handler: false }
    }
}

/// What to do with one message.
#[derive(Debug, Clone, PartialEq, Eq)]
pub enum LogAction {
    /// Nothing: logging is off or the message is below the threshold.
    Skip,
    /// Call the custom handler with this level and message.
    Handler(LogLevel, String),
    /// Write this line to standard output.
    Stdout(String),
    /// Write this line to standard error.
    Stderr(String),
}

/// A formatted log line at timestamp `ts`. With colors: the dimmed timestamp, the colored label,
/// the bright `[Better Auth]:` tag, then the message; without: `ts LABEL [Better Auth]: message`.
pub open spec fn format_text(level: LogLevel, message: Seq<char>, colors: bool, ts: Seq<char>) -> Seq<char> {
    if colors {
        "\x1b[2m"@ + ts + "\x1b[0m"@ + " "@ + level_color(level) + level_label(level) + "\x1b[0m"@ + " "@
            + "\x1b[1m"@ + "[Better Auth]:"@ + "\x1b[0m"@ + " "@ + message
    } else {
        ts + " "@ + level_label(level) + " [Better Auth]: "@ + message
    }
}

/// Whether a character is an ASCII digit.
pub open spec fn is_digit(c: char) -> bool {
    '0' <= c <= '9'
}

/// Whether a text is an RFC 3339 date-time in UTC as `time` writes one: `YYYY-MM-DDTHH:MM:SS`,
/// then, where the second has a fraction, `.` and one to nine digits, then `Z`.
pub open spec fn is_rfc3339_utc(s: Seq<char>) -> bool {
    &&& s.len() == 20 || (22 <= s.len() <= 30 && s[19] == '.')
    &&& forall|i: int|
        0 <= i < 19 && i != 4 && i != 7 && i != 10 && i != 13 && i != 16 ==> is_digit(#[trigger] s[i])
    &&& s[4] == '-' && s[7] == '-' && s[10] == 'T' && s[13] == ':' && s[16] == ':'
    &&& forall|i: int| 20 <= i < s.len() - 1 ==> is_digit(#[trigger] s[i])
    &&& s[s.len() - 1] == 'Z'
}

/// Whether a log line's stamp is one that a line may carry: an RFC 3339 UTC date-time, or empty
/// where the time could not be written.
pub open spec fn is_stamp(ts: Seq<char>) -> bool {
    ts.len() == 0 || is_rfc3339_utc(ts)
}

/// The current time in RFC 3339 form (`time::OffsetDateTime::now_utc()` formatted with
/// `Rfc3339`), or `None` where formatting fails (a year outside 0 to 9999). The contract claims
/// what `time`'s formatter writes for a UTC date-time: the form [`is_rfc3339_utc`] states. Which
/// instant it is, is the clock's.
#[verifier::external_body]
fn now_rfc3339() -> (r: Option<String>)
    ensures
        r is Some ==> is_rfc3339_utc(r->Some_0@),
{
    time::OffsetDateTime::now_utc().format(&time::format_description::well_known::Rfc3339).ok()
}

/// Whether standard error is a terminal (`std::io::IsTerminal`). Nothing is claimed: it depends on
/// how the process was started.
#[verifier::external_body]
fn stderr_is_terminal() -> (r: bool) {
    std::io::IsTerminal::is_terminal(&std::io::stderr())
}

/// A log line at the given timestamp.
pub fn format_message_at(level: LogLevel, message: &str, colors: bool, ts: &str) -> (r: String)
    ensures
        r@ == format_text(level, message@, colors, ts@),
{
    let mut r = String::new();
    if colors {
        r.append("\x1b[2m");
        r.append(ts);
        r.append("\x1b[0m");
        r.append(" ");
        r.append(level.color());
        r.append(level.label());
        r.append("\x1b[0m");
        r.append(" ");
        r.append("\x1b[1m");
        r.append("[Better Auth]:");
        r.append("\x1b[0m");
        r.append(" ");
        r.append(message);
    } else {
        r.append(ts);
        r.append(" ");
        r.append(level.label());
        r.append(" [Better Auth]: ");
        r.append(message);
    }
    proof {
        assert(r@ =~= format_text(level, message@, colors, ts@));
    }
    r
}

/// A log line stamped with the current time in RFC 3339 form (an empty stamp where the time cannot
/// be written).
pub fn format_message(level: LogLevel, message: &str, colors: bool) -> (r: String)
    ensures
        exists|ts: Seq<char>| is_stamp(ts) && r@ == format_text(level, message@, colors, ts),
{
    let ts = match now_rfc3339() {
        Some(t) => t,
        None => String::new(),
    };
    assert(is_stamp(ts@));
    format_message_at(level, message, colors, ts.as_str())
}

/// A built logger with one method per level. Each method returns what to do with the message.
#[derive(Debug, Clone, Copy, PartialEq, Eq, Structural)]
pub struct InternalLogger {
    enabled: bool,
    log_level: LogLevel,
    colors: bool,
    has_handler: bool,
}

/// Where a message goes: nowhere when logging is off or it is below the threshold; to the custom
/// handler when there is one (`Success` reported as `Info`); otherwise a formatted line, on
/// standard error for warnings and errors and on standard output for the rest.
pub open spec fn action_at(lg: InternalLogger, level: LogLevel, message: Seq<char>, ts: Seq<char>, a: LogAction) -> bool {
    if !lg.enabled_spec() || !publishes(lg.level_spec(), level) {
        a is Skip
    } else if lg.has_handler_spec() {
        a matches LogAction::Handler(l, m) && l == (if level == LogLevel::Success {
            LogLevel::Info
        } else {
            level
        }) && m@ == message
    } else if level == LogLevel::Error || level == LogLevel::Warn {
        a matches LogAction::Stderr(line) && line@ == format_text(level, message, lg.colors_spec(), ts)
    } else {
        a matches LogAction::Stdout(line) && line@ == format_text(level, message, lg.colors_spec(), ts)
    }
}

/// An enabled logger publishes every message at its own threshold level: it is never skipped.
pub proof fn lemma_publish_at_own_level(lg: InternalLogger, message: Seq<char>, ts: Seq<char>, a: LogAction)
    requires
        lg.enabled_spec(),
        action_at(lg, lg.level_spec(), message, ts, a),
    ensures
        !(a is Skip),
{
}

/// A custom handler never receives `Success`: it is reported as `Info`.
pub proof fn lemma_handler_never_sees_success(
    lg: InternalLogger,
    level: LogLevel,
    message: Seq<char>,
    ts: Seq<char>,
    a: LogAction,
)
    requires
        action_at(lg, level, message, ts, a),
    ensures
        a matches LogAction::Handler(l, _) ==> l != LogLevel::Success,
{
}

/// A message below the threshold, or any message of a disabled logger, goes nowhere.
pub proof fn lemma_unpublished_is_skipped(
    lg: InternalLogger,
    level: LogLevel,
    message: Seq<char>,
    ts: Seq<char>,
    a: LogAction,
)
    requires
        action_at(lg, level, message, ts, a),
        !lg.enabled_spec() || level_rank(level) < level_rank(lg.level_spec()),
    ensures
        a is Skip,
{
}

impl InternalLogger {
    /// Whether logging is on.
    pub closed spec fn enabled_spec(self) -> bool {
        self.enabled
    }

    /// The threshold.
    pub closed spec fn level_spec(self) -> LogLevel {
        self.log_level
    }

    /// Whether lines are colored.
    pub closed spec fn colors_spec(self) -> bool {
        self.colors
    }

    /// Whether a custom handler receives the messages.
    pub closed spec fn has_handler_spec(self) -> bool {
        self.has_handler
    }

    /// What to do with a message at `level`, for a line stamped `ts`.
    pub fn emit_at(&self, level: LogLevel, message: &str, ts: &str) -> (a: LogAction)
        ensures
            action_at(*self, level, message@, ts@, a),
    {
        if !self.enabled || !should_publish_log(self.log_level, level) {
            return LogAction::Skip;
        }
        if self.has_handler {
            let mapped = match level {
                LogLevel::Success => LogLevel::Info,
                other => other,
            };
            return LogAction::Handler(mapped, String::from_str(message));
        }
        let line = format_message_at(level, message, self.colors, ts);
        match level {
            LogLevel::Error | LogLevel::Warn => LogAction::Stderr(line),
            _ => LogAction::Stdout(line),
        }
    }

    /// What to do with a message at `level`, stamped with the current time.
    pub fn emit(&self, level: LogLevel, message: &str) -> (a: LogAction)
        ensures
            exists|ts: Seq<char>| is_stamp(ts) && action_at(*self, level, message@, ts, a),
    {
        let ts = match now_rfc3339() {
            Some(t) => t,
            None => String::new(),
        };
        assert(is_stamp(ts@));
        self.emit_at(level, message, ts.as_str())
    }

    /// Log at `Debug`.
    pub fn debug(&self, message: &str) -> (a: LogAction)
        ensures
            exists|ts: Seq<char>| is_stamp(ts) && action_at(*self, LogLevel::Debug, message@, ts, a),
    {
        self.emit(LogLevel::Debug, message)
    }

    /// Log at `Info`.
    pub fn info(&self, message: &str) -> (a: LogAction)
        ensures
            exists|ts: Seq<char>| is_stamp(ts) && action_at(*self, LogLevel::Info, message@, ts, a),
    {
        self.emit(LogLevel::Info, message)
    }

    /// Log at `Success`.
    pub fn success(&self, message: &str) -> (a: LogAction)
        ensures
            exists|ts: Seq<char>| is_stamp(ts) && action_at(*self, LogLevel::Success, message@, ts, a),
    {
        self.emit(LogLevel::Success, message)
    }

    /// Log at `Warn`.
    pub fn warn(&self, message: &str) -> (a: LogAction)
        ensures
            exists|ts: Seq<char>| is_stamp(ts) && action_at(*self, LogLevel::Warn, message@, ts, a),
    {
        self.emit(LogLevel::Warn, message)
    }

    /// Log at `Error`.
    pub fn error(&self, message: &str) -> (a: LogAction)
        ensures
            exists|ts: Seq<char>| is_stamp(ts) && action_at(*self, LogLevel::Error, message@, ts, a),
    {
        self.emit(LogLevel::Error, message)
    }

    /// The configured threshold level.
    pub fn level(&self) -> (r: LogLevel)
        ensures
            r == self.level_spec(),
    {
        self.log_level
    }

    /// Whether lines are colored.
    pub fn colors(&self) -> (r: bool)
        ensures
            r == self.colors_spec(),
    {
        self.colors
    }
}

/// Whether a configured logger logs at all: unless `disabled` is `Some(true)`.
pub open spec fn configured_enabled(options: Option<Logger>) -> bool {
    !(options matches Some(o) && o.disabled == Some(true))
}

/// A configured logger's threshold: the configured level, `Warn` by default.
pub open spec fn configured_level(options: Option<Logger>) -> LogLevel {
    match options {
        Some(o) => match o.level {
            Some(l) => l,
            None => LogLevel::Warn,
        },
        None => LogLevel::Warn,
    }
}

/// Whether a configured logger colors its lines, given whether standard error is a terminal:
/// as configured, else when it is a terminal.
pub open spec fn configured_colors(options: Option<Logger>, stderr_terminal: bool) -> bool {
    match options {
        Some(o) => match o.disable_colors {
            Some(d) => !d,
            None => stderr_terminal,
        },
        None => stderr_terminal,
    }
}

/// Build a logger from optional configuration, given whether standard error is a terminal.
pub fn create_logger_for(options: Option<Logger>, stderr_terminal: bool) -> (lg: InternalLogger)
    ensures
        lg.enabled_spec() == configured_enabled(options),
        lg.level_spec() == configured_level(options),
        lg.colors_spec() == configured_colors(options, stderr_terminal),
        lg.has_handler_spec() == (options matches Some(o) && o.has_handler),
{
    let o = match options {
        Some(o) => o,
        None => Logger::default(),
    };
    let enabled = match o.disabled {
        Some(true) => false,
        _ => true,
    };
    let log_level = match o.level {
        Some(l) => l,
        None => LogLevel::Warn,
    };
    let colors = match o.disable_colors {
        Some(d) => !d,
        None => stderr_terminal,
    };
    InternalLogger { enabled, log_level, colors, has_handler: o.has_handler }
}

/// Build a logger from optional configuration, detecting colors from whether standard error is a
/// terminal when the configuration does not decide them.
pub fn create_logger(options: Option<Logger>) -> (lg: InternalLogger)
    ensures
        lg.enabled_spec() == configured_enabled(options),
        lg.level_spec() == configured_level(options),
        exists|t: bool| lg.colors_spec() == configured_colors(options, t),
        lg.has_handler_spec() == (options matches Some(o) && o.has_handler),
{
    let t = stderr_is_terminal();
    create_logger_for(options, t)
}

} // verus!
