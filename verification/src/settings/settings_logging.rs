//! Logging filter settings.
use vstd::prelude::*;

use crate::text::{chars_of, chars_eq, push_str, upper_chars, upper_seq};

verus! {

/// The most verbose level of events that pass the filter, or none at all.
#[derive(Clone, Copy, Debug, PartialEq, Eq, Structural)]
pub enum LevelFilter {
    Off,
    Error,
    Warn,
    Info,
    Debug,
    Trace,
}

/// The filter that a configured level name denotes, compared ignoring
/// ASCII case.
pub open spec fn spec_level_filter_from_name(value: Seq<char>) -> Option<LevelFilter> {
    let u = upper_seq(value);
    if u == "TRACE"@ {
        Some(LevelFilter::Trace)
    } else if u == "DEBUG"@ {
        Some(LevelFilter::Debug)
    } else if u == "INFO"@ {
        Some(LevelFilter::Info)
    } else if u == "WARN"@ {
        Some(LevelFilter::Warn)
    } else if u == "ERROR"@ {
        Some(LevelFilter::Error)
    } else {
        None
    }
}

/// The message for a level name that denotes no filter.
pub open spec fn invalid_level_message(value: Seq<char>) -> Seq<char> {
    "invalid log level '"@ + value + "', expected one of: TRACE, DEBUG, INFO, WARN, ERROR"@
}

/// Logging settings.
#[derive(Clone, Copy, Debug)]
pub struct AppLogSettings {
    pub level: LevelFilter,
}

impl Default for AppLogSettings {
    fn default() -> (r: Self)
        ensures
            r.level == LevelFilter::Debug,
    {
        Self { level: default_level_filter() }
    }
}

/// The filter used when none is configured.
pub fn default_level_filter() -> (r: LevelFilter)
    ensures
        r == LevelFilter::Debug,
{
    LevelFilter::Debug
}

fn is_upper_name(v: &Vec<char>, lit: &str) -> (r: bool)
    ensures
        r == (v@ == lit@),
{
    let w = chars_of(lit);
    chars_eq(v, &w)
}

/// Reads a configured level name: `TRACE`, `DEBUG`, `INFO`, `WARN` or
/// `ERROR`, in any ASCII case; any other name is refused with a message.
pub fn level_filter_from_name(value: &str) -> (r: Result<LevelFilter, String>)
    ensures
        spec_level_filter_from_name(value@) matches Some(f) ==> r == Ok::<LevelFilter, String>(f),
        spec_level_filter_from_name(value@) is None ==> (r matches Err(m) && m@ == invalid_level_message(value@)),
{
    let raw = chars_of(value);
    let upper = upper_chars(&raw);
    if is_upper_name(&upper, "TRACE") {
        Ok(LevelFilter::Trace)
    } else if is_upper_name(&upper, "DEBUG") {
        Ok(LevelFilter::Debug)
    } else if is_upper_name(&upper, "INFO") {
        Ok(LevelFilter::Info)
    } else if is_upper_name(&upper, "WARN") {
        Ok(LevelFilter::Warn)
    } else if is_upper_name(&upper, "ERROR") {
        Ok(LevelFilter::Error)
    } else {
        let mut m = String::new();
        push_str(&mut m, "invalid log level '");
        push_str(&mut m, value);
        push_str(&mut m, "', expected one of: TRACE, DEBUG, INFO, WARN, ERROR");
        assert(m@ =~= invalid_level_message(value@));
        Err(m)
    }
}

/// A level name, in any ASCII case, denotes exactly the filter of that
/// name, and every other name is refused: distinct names give distinct
/// filters, and no accepted name gives `Off`.
pub proof fn lemma_level_name_denotes_its_filter(value: Seq<char>)
    ensures
        ({
            let u = upper_seq(value);
            let r = spec_level_filter_from_name(value);
            &&& (r == Some(LevelFilter::Trace) <==> u == "TRACE"@)
            &&& (r == Some(LevelFilter::Debug) <==> u == "DEBUG"@)
            &&& (r == Some(LevelFilter::Info) <==> u == "INFO"@)
            &&& (r == Some(LevelFilter::Warn) <==> u == "WARN"@)
            &&& (r == Some(LevelFilter::Error) <==> u == "ERROR"@)
            &&& r != Some(LevelFilter::Off)
        }),
{
    reveal_strlit("TRACE");
    reveal_strlit("DEBUG");
    reveal_strlit("INFO");
    reveal_strlit("WARN");
    reveal_strlit("ERROR");
    assert("TRACE"@[0] != "DEBUG"@[0] && "TRACE"@[0] != "ERROR"@[0] && "DEBUG"@[0] != "ERROR"@[0]);
    assert("INFO"@[0] != "WARN"@[0]);
}

} // verus!
