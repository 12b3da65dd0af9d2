//! Process-wide configuration rules, resolved once at startup: the logging
//! level chosen from the debug toggle, and the file path behind an index
//! storage URL.

use vstd::prelude::*;

verus! {

/// The two logging levels the process runs at.
#[derive(Clone, Copy, Debug, PartialEq, Eq, Structural)]
pub enum LogLevel {
    Trace,
    Info,
}

/// Whether the debug toggle is on: exactly the value `true`, anything else —
/// another value, or the variable absent — means off.
pub fn debug_enabled(value: Option<&str>) -> (r: bool)
    ensures
        r == (value matches Some(v) && v@ == "true"@),
{
    match value {
        Some(v) => crate::text::str_eq(v, "true"),
        None => false,
    }
}

/// The logging level the debug toggle selects: everything when debugging,
/// informational otherwise.
pub fn log_level_for(debug: bool) -> (l: LogLevel)
    ensures
        l == (if debug {
            LogLevel::Trace
        } else {
            LogLevel::Info
        }),
{
    if debug {
        LogLevel::Trace
    } else {
        LogLevel::Info
    }
}

/// The backing file of an index storage URL: the path after the scheme
/// prefix `sqlite://`. A URL without that prefix names no file.
pub fn db_file_path(db_url: &str) -> (r: Option<String>)
    ensures
        match r {
            Some(p) => db_url@.len() >= "sqlite://"@.len() && db_url@.subrange(
                0,
                "sqlite://"@.len() as int,
            ) == "sqlite://"@ && p@ == db_url@.skip("sqlite://"@.len() as int),
            None => !(db_url@.len() >= "sqlite://"@.len() && db_url@.subrange(
                0,
                "sqlite://"@.len() as int,
            ) == "sqlite://"@),
        },
{
    proof {
        reveal_strlit("sqlite://");
    }
    if crate::text::str_starts_with(db_url, "sqlite://") {
        let n = db_url.unicode_len();
        let rest = db_url.substring_char(9, n);
        proof {
            assert(rest@ =~= db_url@.skip("sqlite://"@.len() as int));
        }
        Some(rest.to_owned())
    } else {
        None
    }
}

} // verus!
