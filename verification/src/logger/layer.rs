//! The routing of one log event, and the line that is written for it.

use vstd::prelude::*;
use crate::logger::log::DEPENDENCIES;
use crate::logger::{position_of, lemma_position_is_first, LogContainer};
use crate::text::{append_decimal, append_signed_decimal, decimal, has_nul, signed_decimal};

verus! {

/// Corresponds to the host's `LNOTICE` level.
pub const LOG_LEVEL_NOTICE: i32 = 1;

/// Corresponds to the host's `LERROR` level.
pub const LOG_LEVEL_ERROR: i32 = 2;

/// Corresponds to the host's `LWARNING` level.
pub const LOG_LEVEL_WARNING: i32 = 3;

/// Corresponds to the host's `LINFO` level.
pub const LOG_LEVEL_INFO: i32 = 4;

/// Corresponds to the host's `LDEBUG` level.
pub const LOG_LEVEL_DEBUG: i32 = 5;

/// The severity of a log event, most severe first.
#[derive(Copy, Clone, Debug, PartialEq, Eq, Structural)]
pub enum Level {
    Error,
    Warn,
    Info,
    Debug,
    Trace,
}

/// The severity that one of the host's levels stands for. The host's notice
/// level has no counterpart and counts as debug, as does any unknown number.
pub open spec fn level_of(level: i32) -> Level {
    if level == LOG_LEVEL_ERROR {
        Level::Error
    } else if level == LOG_LEVEL_WARNING {
        Level::Warn
    } else if level == LOG_LEVEL_INFO {
        Level::Info
    } else {
        Level::Debug
    }
}

/// The host's level that a severity is logged at.
pub open spec fn host_level(level: Level) -> i32 {
    match level {
        Level::Info => LOG_LEVEL_INFO,
        Level::Warn => LOG_LEVEL_WARNING,
        Level::Error => LOG_LEVEL_ERROR,
        Level::Debug | Level::Trace => LOG_LEVEL_DEBUG,
    }
}

/// The name of a severity as it is written in a log line.
pub open spec fn level_name(level: Level) -> Seq<char> {
    match level {
        Level::Error => "ERROR"@,
        Level::Warn => "WARN"@,
        Level::Info => "INFO"@,
        Level::Debug => "DEBUG"@,
        Level::Trace => "TRACE"@,
    }
}

/// A helper method for converting the host's levels to a severity.
pub fn convert_dolphin_log_level_to_tracing_level(level: i32) -> (r: Level)
    ensures
        r == level_of(level),
{
    if level == LOG_LEVEL_ERROR {
        Level::Error
    } else if level == LOG_LEVEL_WARNING {
        Level::Warn
    } else if level == LOG_LEVEL_INFO {
        Level::Info
    } else {
        Level::Debug
    }
}

/// Where a log event goes.
#[derive(Copy, Clone, Debug, PartialEq, Eq, Structural)]
pub enum LogRoute {
    /// No container takes the event: it is reported on standard error.
    NoHandler,
    /// The container that takes the event is disabled: the event is dropped
    /// before anything is written for it.
    Discard,
    /// The event is written and handed to the host's logger, at this level
    /// and for the container of this number.
    Forward { log_level: i32, log_type: i32 },
}

/// The index of the container that takes events of the target `target`: the
/// first of that kind, else the first for dependencies. The number of
/// containers where there is neither.
pub open spec fn container_for(containers: Seq<LogContainer>, target: Seq<char>) -> int {
    if position_of(containers, target) < containers.len() {
        position_of(containers, target)
    } else {
        position_of(containers, DEPENDENCIES@)
    }
}

/// Where an event of the target `target` and the severity `level` goes.
pub open spec fn route_for(containers: Seq<LogContainer>, target: Seq<char>, level: Level) -> LogRoute {
    let i = container_for(containers, target);
    if i >= containers.len() {
        LogRoute::NoHandler
    } else if !containers[i].is_enabled {
        LogRoute::Discard
    } else {
        LogRoute::Forward { log_level: host_level(level), log_type: containers[i].log_type }
    }
}

/// The index of the first container of the kind `kind`.
fn find_container(containers: &Vec<LogContainer>, kind: &str) -> (found: Option<usize>)
    ensures
        match found {
            Some(i) => i == position_of(containers@, kind@) && i < containers@.len(),
            None => position_of(containers@, kind@) == containers@.len(),
        },
{
    let wanted = String::from_str(kind);
    let mut i: usize = 0;
    while i < containers.len()
        invariant
            i <= containers@.len(),
            wanted@ == kind@,
            forall|j: int| 0 <= j < i ==> (#[trigger] containers@[j]).kind@ != kind@,
        decreases containers@.len() - i,
    {
        if containers[i].kind == wanted {
            proof {
                lemma_position_is_first(containers@, kind@, i as int);
            }
            return Some(i);
        }
        i = i + 1;
    }
    proof {
        lemma_position_is_first(containers@, kind@, i as int);
    }
    None
}

/// A custom layer that forwards events back into the host's logging
/// infrastructure. It holds nothing: the containers are handed to it with
/// each event.
#[derive(Copy, Clone, Debug)]
pub struct DolphinLoggerLayer;

impl DolphinLoggerLayer {
    /// Creates and returns a new logger layer.
    pub fn new() -> Self {
        DolphinLoggerLayer
    }

    /// Routes an event to the appropriate log handler of the host.
    pub fn on_event(&self, containers: &Vec<LogContainer>, target: &str, level: Level) -> (route:
        LogRoute)
        ensures
            route == route_for(containers@, target@, level),
    {
        let mut log_container = find_container(containers, target);
        if log_container.is_none() {
            log_container = find_container(containers, DEPENDENCIES);
        }
        let index = match log_container {
            Some(index) => index,
            None => {
                return LogRoute::NoHandler;
            },
        };
        let container = &containers[index];
        if !container.is_enabled {
            return LogRoute::Discard;
        }
        let log_level = match level {
            Level::Info => LOG_LEVEL_INFO,
            Level::Warn => LOG_LEVEL_WARNING,
            Level::Error => LOG_LEVEL_ERROR,
            Level::Debug | Level::Trace => LOG_LEVEL_DEBUG,
        };
        LogRoute::Forward { log_level, log_type: container.log_type }
    }
}

/// The two digits of a minute or a second.
pub open spec fn two_digits(n: nat) -> Seq<char> {
    if n < 10 {
        seq!['0'] + decimal(n)
    } else {
        decimal(n)
    }
}

/// The start of a log line: the time as minutes, seconds and milliseconds;
/// where in the source the event was logged; its severity and its category.
pub open spec fn line_prefix(
    file: Seq<char>,
    line: u32,
    level: Level,
    log_type: Seq<char>,
    mins: u8,
    secs: u8,
    millis: u16,
) -> Seq<char> {
    two_digits(mins as nat) + seq![':'] + two_digits(secs as nat) + seq![':'] + decimal(
        millis as nat,
    ) + seq![' '] + file + seq![':'] + decimal(line as nat) + seq![' '] + level_name(level)
        + seq!['['] + log_type + seq![']', ':', ' ']
}

/// One field of an event as it is written in a log line.
pub open spec fn field_text(name: Seq<char>, value: Seq<char>) -> Seq<char> {
    name + seq!['='] + value + seq![' ']
}

/// The text of a boolean.
pub open spec fn bool_text(value: bool) -> Seq<char> {
    if value {
        "true"@
    } else {
        "false"@
    }
}

/// Implements a visitor that builds a log message for the host's logger to
/// consume.
#[derive(Debug)]
pub struct DolphinLoggerVisitor(pub String);

impl View for DolphinLoggerVisitor {
    type V = Seq<char>;

    open spec fn view(&self) -> Seq<char> {
        self.0@
    }
}

impl DolphinLoggerVisitor {
    /// Creates and returns a new `DolphinLoggerVisitor`, with the start of
    /// the line written.
    ///
    /// `file` and `line` say where the event was logged, and are empty and
    /// zero where that is not known. `mins`, `secs` and `millis` are taken
    /// from the local time.
    pub fn new(
        file: &str,
        line: u32,
        level: Level,
        log_type: &str,
        mins: u8,
        secs: u8,
        millis: u16,
    ) -> (visitor: Self)
        ensures
            visitor@ == line_prefix(file@, line, level, log_type@, mins, secs, millis),
    {
        proof {
            reveal_strlit("0");
            reveal_strlit(":");
            reveal_strlit(" ");
            reveal_strlit("[");
            reveal_strlit("]: ");
        }
        let mut buffer = String::new();
        if mins < 10 {
            buffer.append("0");
        }
        append_decimal(&mut buffer, mins as u128);
        buffer.append(":");
        if secs < 10 {
            buffer.append("0");
        }
        append_decimal(&mut buffer, secs as u128);
        buffer.append(":");
        append_decimal(&mut buffer, millis as u128);
        buffer.append(" ");
        buffer.append(file);
        buffer.append(":");
        append_decimal(&mut buffer, line as u128);
        buffer.append(" ");
        buffer.append(
            match level {
                Level::Error => "ERROR",
                Level::Warn => "WARN",
                Level::Info => "INFO",
                Level::Debug => "DEBUG",
                Level::Trace => "TRACE",
            },
        );
        buffer.append("[");
        buffer.append(log_type);
        buffer.append("]: ");
        assert(buffer@ =~= line_prefix(file@, line, level, log_type@, mins, secs, millis));
        DolphinLoggerVisitor(buffer)
    }

    /// Writes a field whose value is given as text.
    pub fn record_str(&mut self, field: &str, value: &str)
        ensures
            final(self)@ == old(self)@ + field_text(field@, value@),
    {
        proof {
            reveal_strlit("=");
            reveal_strlit(" ");
        }
        self.0.append(field);
        self.0.append("=");
        self.0.append(value);
        self.0.append(" ");
        assert(self@ =~= old(self)@ + field_text(field@, value@));
    }

    /// Writes a field whose value is a signed integer.
    pub fn record_i64(&mut self, field: &str, value: i64)
        ensures
            final(self)@ == old(self)@ + field_text(field@, signed_decimal(value as int)),
    {
        self.record_i128(field, value as i128);
    }

    /// Writes a field whose value is an unsigned integer.
    pub fn record_u64(&mut self, field: &str, value: u64)
        ensures
            final(self)@ == old(self)@ + field_text(field@, decimal(value as nat)),
    {
        self.record_u128(field, value as u128);
    }

    /// Writes a field whose value is a wide signed integer.
    pub fn record_i128(&mut self, field: &str, value: i128)
        ensures
            final(self)@ == old(self)@ + field_text(field@, signed_decimal(value as int)),
    {
        proof {
            reveal_strlit("=");
            reveal_strlit(" ");
        }
        self.0.append(field);
        self.0.append("=");
        append_signed_decimal(&mut self.0, value);
        self.0.append(" ");
        assert(self@ =~= old(self)@ + field_text(field@, signed_decimal(value as int)));
    }

    /// Writes a field whose value is a wide unsigned integer.
    pub fn record_u128(&mut self, field: &str, value: u128)
        ensures
            final(self)@ == old(self)@ + field_text(field@, decimal(value as nat)),
    {
        proof {
            reveal_strlit("=");
            reveal_strlit(" ");
        }
        self.0.append(field);
        self.0.append("=");
        append_decimal(&mut self.0, value);
        self.0.append(" ");
        assert(self@ =~= old(self)@ + field_text(field@, decimal(value as nat)));
    }

    /// Writes a field whose value is a boolean.
    pub fn record_bool(&mut self, field: &str, value: bool)
        ensures
            final(self)@ == old(self)@ + field_text(field@, bool_text(value)),
    {
        if value {
            self.record_str(field, "true");
        } else {
            self.record_str(field, "false");
        }
    }

    /// The host's log window needs a newline at the end of a line, so one is
    /// written as the finishing step.
    pub fn finish(self) -> (line: String)
        ensures
            line@ == self@.push('\n'),
    {
        proof {
            reveal_strlit("\n");
        }
        let mut line = self.0;
        line.append("\n");
        assert(line@ =~= self@.push('\n'));
        line
    }
}

/// The line as the host can take it: `None` where it holds a NUL byte, which
/// would end it early on the host's side; such a line is reported on
/// standard error and not logged.
pub fn host_line(line: String) -> (r: Option<String>)
    ensures
        r.is_some() == !vstd::utf8::encode_utf8(line@).contains(0u8),
        match r {
            Some(text) => text == line,
            None => true,
        },
{
    if has_nul(line.as_str()) {
        None
    } else {
        Some(line)
    }
}

} // verus!
