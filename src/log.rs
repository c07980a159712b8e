use vstd::prelude::*;
use vstd::string::*;

verus! {

/// The severity of a log line.
#[derive(Debug, Clone, Copy, PartialEq, Eq, Structural)]
pub enum LogLevel {
    Error,
    Info,
    Warn,
}

impl LogLevel {
    /// The tag that opens a line of this severity, with the space after it.
    pub open spec fn tag(self) -> Seq<char> {
        match self {
            LogLevel::Error => "[ERROR] "@,
            LogLevel::Info => "[INFO] "@,
            LogLevel::Warn => "[WARN] "@,
        }
    }
}

/// A line of the log as it is written out: the severity tag, then the text.
pub open spec fn line_text(record: (LogLevel, Seq<char>)) -> Seq<char> {
    record.0.tag() + record.1
}

/// One entry of the log.
#[derive(Debug)]
struct LogRecord {
    level: LogLevel,
    text: String,
}

impl View for LogRecord {
    type V = (LogLevel, Seq<char>);

    closed spec fn view(&self) -> (LogLevel, Seq<char>) {
        (self.level, self.text@)
    }
}

/// An append-only log that the commands write to and the host drains. It
/// takes the place of process-wide log output, so that what a command logs
/// is part of what it is seen to do.
#[derive(Debug)]
pub struct LogBuffer {
    records: Vec<LogRecord>,
}

impl View for LogBuffer {
    type V = Seq<(LogLevel, Seq<char>)>;

    closed spec fn view(&self) -> Seq<(LogLevel, Seq<char>)> {
        self.records@.map_values(|r: LogRecord| r@)
    }
}

impl LogBuffer {
    /// A log with no lines.
    pub fn new() -> (r: LogBuffer)
        ensures
            r@ == Seq::<(LogLevel, Seq<char>)>::empty(),
    {
        let r = LogBuffer { records: Vec::new() };
        assert(r@ =~= Seq::<(LogLevel, Seq<char>)>::empty());
        r
    }

    /// The number of lines written so far.
    pub fn len(&self) -> (r: usize)
        ensures
            r == self@.len(),
    {
        self.records.len()
    }

    /// Appends one line of severity `level`.
    pub fn record(&mut self, level: LogLevel, text: String)
        ensures
            final(self)@ == old(self)@.push((level, text@)),
    {
        let ghost before = self.records@;
        self.records.push(LogRecord { level, text });
        assert(self.records@ =~= before.push(LogRecord { level, text }));
        assert(self@ =~= old(self)@.push((level, text@)));
    }

    /// The severity of line `i`.
    pub fn level(&self, i: usize) -> (r: LogLevel)
        requires
            i < self@.len(),
        ensures
            r == self@[i as int].0,
    {
        self.records[i].level
    }

    /// Line `i` as it is written out.
    pub fn line(&self, i: usize) -> (r: String)
        requires
            i < self@.len(),
        ensures
            r@ == line_text(self@[i as int]),
    {
        let record = &self.records[i];
        let mut r = match record.level {
            LogLevel::Error => String::from_str("[ERROR] "),
            LogLevel::Info => String::from_str("[INFO] "),
            LogLevel::Warn => String::from_str("[WARN] "),
        };
        r.append(record.text.as_str());
        r
    }
}

} // verus!
