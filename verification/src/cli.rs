//! The logging knobs a run is configured with: how verbose the log is and
//! which span events it shows.

use vstd::prelude::*;

use crate::error::Error;
use crate::text::{ascii_upper, string_eq_str};

verus! {

/// The verbosity of the logger, least verbose first.
#[derive(Debug, Clone, Copy, PartialEq, Eq, Structural)]
pub enum VerbosityLevel {
    Error,
    Warn,
    Info,
    Debug,
    Trace,
}

impl VerbosityLevel {
    /// The level a numeric knob selects; anything above the known range
    /// falls back to `Info`.
    pub open spec fn spec_from_u8(level: u8) -> VerbosityLevel {
        if level == 0 {
            VerbosityLevel::Error
        } else if level == 1 {
            VerbosityLevel::Warn
        } else if level == 2 {
            VerbosityLevel::Info
        } else if level == 3 {
            VerbosityLevel::Debug
        } else if level == 4 {
            VerbosityLevel::Trace
        } else {
            VerbosityLevel::Info
        }
    }

    /// Selects the level for a numeric knob.
    pub fn from_u8(level: u8) -> (r: VerbosityLevel)
        ensures
            r == VerbosityLevel::spec_from_u8(level),
    {
        match level {
            0 => VerbosityLevel::Error,
            1 => VerbosityLevel::Warn,
            2 => VerbosityLevel::Info,
            3 => VerbosityLevel::Debug,
            4 => VerbosityLevel::Trace,
            _ => VerbosityLevel::Info,
        }
    }

    /// The level a textual knob names, case-insensitively; `None` for text
    /// that names no level.
    pub open spec fn spec_parse(s: Seq<char>) -> Option<VerbosityLevel> {
        let u = crate::text::upper_chars(s);
        if u == "ERROR"@ {
            Some(VerbosityLevel::Error)
        } else if u == "WARN"@ {
            Some(VerbosityLevel::Warn)
        } else if u == "INFO"@ {
            Some(VerbosityLevel::Info)
        } else if u == "DEBUG"@ {
            Some(VerbosityLevel::Debug)
        } else if u == "TRACE"@ {
            Some(VerbosityLevel::Trace)
        } else {
            None
        }
    }

    /// Parses a textual knob; text that names no level is an error.
    pub fn parse(s: &str) -> (r: Result<VerbosityLevel, Error>)
        ensures
            r is Ok <==> VerbosityLevel::spec_parse(s@) is Some,
            r is Ok ==> Some(r->Ok_0) == VerbosityLevel::spec_parse(s@),
            r is Err ==> r->Err_0 matches Error::Generic(_),
    {
        let u = ascii_upper(s);
        if string_eq_str(&u, "ERROR") {
            Ok(VerbosityLevel::Error)
        } else if string_eq_str(&u, "WARN") {
            Ok(VerbosityLevel::Warn)
        } else if string_eq_str(&u, "INFO") {
            Ok(VerbosityLevel::Info)
        } else if string_eq_str(&u, "DEBUG") {
            Ok(VerbosityLevel::Debug)
        } else if string_eq_str(&u, "TRACE") {
            Ok(VerbosityLevel::Trace)
        } else {
            Err(Error::Generic(String::from_str("verbosity level is not supported")))
        }
    }
}

impl core::str::FromStr for VerbosityLevel {
    type Err = Error;

    fn from_str(s: &str) -> Result<VerbosityLevel, Error> {
        VerbosityLevel::parse(s)
    }
}

/// Which span events the logger shows.
#[derive(Debug, Clone, Copy, PartialEq, Eq, Structural)]
pub enum SpanType {
    NoSpans,
    Exit,
    Enter,
    Full,
}

impl SpanType {
    /// The span mode a numeric knob selects; anything above the known range
    /// shows no spans.
    pub open spec fn spec_from_u8(level: u8) -> SpanType {
        if level == 0 {
            SpanType::NoSpans
        } else if level == 1 {
            SpanType::Exit
        } else if level == 2 {
            SpanType::Enter
        } else if level == 3 {
            SpanType::Full
        } else {
            SpanType::NoSpans
        }
    }

    /// Selects the span mode for a numeric knob.
    pub fn from_u8(level: u8) -> (r: SpanType)
        ensures
            r == SpanType::spec_from_u8(level),
    {
        match level {
            0 => SpanType::NoSpans,
            1 => SpanType::Exit,
            2 => SpanType::Enter,
            3 => SpanType::Full,
            _ => SpanType::NoSpans,
        }
    }

    /// The span mode a textual knob names, case-insensitively; `None` for
    /// text that names no mode.
    pub open spec fn spec_parse(s: Seq<char>) -> Option<SpanType> {
        let u = crate::text::upper_chars(s);
        if u == "NONE"@ {
            Some(SpanType::NoSpans)
        } else if u == "ENTER"@ {
            Some(SpanType::Enter)
        } else if u == "EXIT"@ {
            Some(SpanType::Exit)
        } else if u == "FULL"@ {
            Some(SpanType::Full)
        } else {
            None
        }
    }

    /// Parses a textual knob; text that names no mode is an error.
    pub fn parse(s: &str) -> (r: Result<SpanType, Error>)
        ensures
            r is Ok <==> SpanType::spec_parse(s@) is Some,
            r is Ok ==> Some(r->Ok_0) == SpanType::spec_parse(s@),
            r is Err ==> r->Err_0 matches Error::Generic(_),
    {
        let u = ascii_upper(s);
        if string_eq_str(&u, "NONE") {
            Ok(SpanType::NoSpans)
        } else if string_eq_str(&u, "ENTER") {
            Ok(SpanType::Enter)
        } else if string_eq_str(&u, "EXIT") {
            Ok(SpanType::Exit)
        } else if string_eq_str(&u, "FULL") {
            Ok(SpanType::Full)
        } else {
            Err(Error::Generic(String::from_str("span type is not supported")))
        }
    }
}

impl core::str::FromStr for SpanType {
    type Err = Error;

    fn from_str(s: &str) -> Result<SpanType, Error> {
        SpanType::parse(s)
    }
}

} // verus!
