//! The settings of the process and where they come from.

use vstd::prelude::*;
use crate::text::{split_trimmed, split_trimmed_spec};

verus! {

/// The data directory where none is named.
pub const DEFAULT_DATA_DIR: &'static str = "/vault";

/// The idle time in milliseconds after which a document is written out,
/// where none is named.
pub const DEFAULT_FLUSH_IDLE_MS: u64 = 1500;

/// The number of waiting edits at which a document is written out, where
/// none is named.
pub const DEFAULT_FLUSH_MAX_OPS: usize = 200;

/// The shortest time in milliseconds between two rounds of the periodic
/// writer.
pub const MIN_FLUSH_INTERVAL_MS: u64 = 50;

/// The address on which the server listens.
pub const LISTEN_ADDR: &'static str = "0.0.0.0:9000";

/// The origins that may open a session. They are those of the list `raw`,
/// which parts them with commas: each trimmed, the empty ones left out.
/// Where that names none, the one origin is `https://` and the domain, and
/// where there is no domain either, there is none.
pub open spec fn allowed_origins_spec(raw: Option<Seq<char>>, domain: Option<Seq<char>>) -> Seq<
    Seq<char>,
> {
    let listed = match raw {
        Some(list) => split_trimmed_spec(list, ','),
        None => Seq::empty(),
    };
    if listed.len() > 0 {
        listed
    } else {
        match domain {
            Some(d) => seq!["https://"@ + d],
            None => Seq::empty(),
        }
    }
}

/// The origins that may open a session, from the list of allowed origins
/// and the domain of the application, each where it is set.
pub fn allowed_origins(raw: Option<&str>, domain: Option<&str>) -> (res: Vec<String>)
    ensures
        res.deep_view() == allowed_origins_spec(raw.deep_view(), domain.deep_view()),
{
    let listed = match raw {
        Some(list) => split_trimmed(list, ','),
        None => {
            let none: Vec<String> = Vec::new();
            none
        },
    };
    if listed.len() > 0 {
        return listed;
    }
    let mut out: Vec<String> = Vec::new();
    match domain {
        Some(d) => {
            let mut origin = String::from_str("https://");
            origin.append(d);
            out.push(origin);
        },
        None => {},
    }
    out
}

/// The time in milliseconds between two rounds of the periodic writer: the
/// idle time, but no less than 50.
pub fn flush_interval_ms(flush_idle_ms: u64) -> (res: u64)
    ensures
        res == (if flush_idle_ms >= MIN_FLUSH_INTERVAL_MS {
            flush_idle_ms
        } else {
            MIN_FLUSH_INTERVAL_MS
        }),
{
    if flush_idle_ms >= MIN_FLUSH_INTERVAL_MS {
        flush_idle_ms
    } else {
        MIN_FLUSH_INTERVAL_MS
    }
}

} // verus!
