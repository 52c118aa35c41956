use vstd::prelude::*;

verus! {

/// How much of what happens is logged.
#[derive(Debug, Clone, Copy, PartialEq, Eq, Structural)]
pub enum LogLevel {
    Error,
    Warn,
    Info,
    Debug,
    Trace,
}

/// What `text` is once every letter in it is lower case.
pub uninterp spec fn lowercase(text: Seq<char>) -> Seq<char>;

/// `str::to_lowercase` of the standard library, whose result [`lowercase`] names.
#[verifier::external_body]
fn to_lowercase(text: &str) -> (lowered: String)
    ensures
        lowered@ == lowercase(text@),
{
    text.to_lowercase()
}

/// Whether two string slices hold the same text.
fn same_text(left: &str, right: &str) -> (same: bool)
    ensures
        same == (left@ == right@),
{
    String::from_str(left) == String::from_str(right)
}

impl LogLevel {
    /// The name of the level, in lower case.
    pub open spec fn name(self) -> Seq<char> {
        match self {
            LogLevel::Error => "error"@,
            LogLevel::Warn => "warn"@,
            LogLevel::Info => "info"@,
            LogLevel::Debug => "debug"@,
            LogLevel::Trace => "trace"@,
        }
    }

    /// The level that has the name `lowered`, if there is one.
    pub open spec fn named(lowered: Seq<char>) -> Option<LogLevel> {
        if lowered == LogLevel::Error.name() {
            Some(LogLevel::Error)
        } else if lowered == LogLevel::Warn.name() {
            Some(LogLevel::Warn)
        } else if lowered == LogLevel::Info.name() {
            Some(LogLevel::Info)
        } else if lowered == LogLevel::Debug.name() {
            Some(LogLevel::Debug)
        } else if lowered == LogLevel::Trace.name() {
            Some(LogLevel::Trace)
        } else {
            None
        }
    }

    /// What parsing `text` gives, where `lowered` is `text` in lower case:
    /// the level of that name, or a message that quotes `text` as it was written.
    pub open spec fn parsed(text: Seq<char>, lowered: Seq<char>) -> Result<LogLevel, Seq<char>> {
        match LogLevel::named(lowered) {
            Some(level) => Ok(level),
            None => Err("unknown log level: "@ + text),
        }
    }

    /// The name of the level, in lower case.
    pub fn to_string(&self) -> (text: String)
        ensures
            text@ == self.name(),
    {
        match self {
            LogLevel::Error => String::from_str("error"),
            LogLevel::Warn => String::from_str("warn"),
            LogLevel::Info => String::from_str("info"),
            LogLevel::Debug => String::from_str("debug"),
            LogLevel::Trace => String::from_str("trace"),
        }
    }

    /// Finds the level whose name is `lowered`.
    pub fn from_lowercase(lowered: &str) -> (level: Option<LogLevel>)
        ensures
            level == LogLevel::named(lowered@),
    {
        if same_text(lowered, "error") {
            Some(LogLevel::Error)
        } else if same_text(lowered, "warn") {
            Some(LogLevel::Warn)
        } else if same_text(lowered, "info") {
            Some(LogLevel::Info)
        } else if same_text(lowered, "debug") {
            Some(LogLevel::Debug)
        } else if same_text(lowered, "trace") {
            Some(LogLevel::Trace)
        } else {
            None
        }
    }

    /// Parses a level from its name, in whatever case it is written.
    pub fn from_str(s: &str) -> (level: Result<LogLevel, String>)
        ensures
            match LogLevel::parsed(s@, lowercase(s@)) {
                Ok(expected) => level == Ok::<LogLevel, String>(expected),
                Err(message) => level matches Err(text) && text@ == message,
            },
    {
        let lowered = to_lowercase(s);
        match LogLevel::from_lowercase(lowered.as_str()) {
            Some(level) => Ok(level),
            None => Err(String::from_str("unknown log level: ").concat(s)),
        }
    }
}

impl std::str::FromStr for LogLevel {
    type Err = String;

    /// Parses a level as [`LogLevel::from_str`] does.
    fn from_str(s: &str) -> (level: Result<Self, String>)
        ensures
            match LogLevel::parsed(s@, lowercase(s@)) {
                Ok(expected) => level == Ok::<LogLevel, String>(expected),
                Err(message) => level matches Err(text) && text@ == message,
            },
    {
        LogLevel::from_str(s)
    }
}

} // verus!
