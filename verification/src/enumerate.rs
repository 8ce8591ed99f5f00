//! The enumeration mode: scan an inclusive ID range, fetch each pack's raw
//! metadata from a primary endpoint with a secondary-mirror fallback, persist
//! successful payloads verbatim, and skip failures silently — a failure at
//! one ID never aborts the scan.

use vstd::prelude::*;
use vstd::string::StringExecFns;
use crate::errors::ConfigError;
use crate::fetch::FetchFailure;
use crate::urls::{json_file_name, json_file_name_spec};

verus! {

/// Checks the enumeration range eagerly: the start must strictly precede the
/// end, else the scan is refused before any network activity.
pub fn check_range(start: u32, end: u32) -> (r: Result<(), ConfigError>)
    ensures
        r is Ok <==> start < end,
        r is Err ==> r->Err_0 == ConfigError::InvalidRange,
{
    if start < end {
        Ok(())
    } else {
        Err(ConfigError::InvalidRange)
    }
}

/// What one ID of the scan yields, given the outcomes of the primary and the
/// secondary endpoint: the file `<id>.json` holding the primary's payload if
/// it succeeded, else the secondary's if it succeeded, else nothing.
pub open spec fn enum_step_spec(
    id: u32,
    primary: Result<String, FetchFailure>,
    secondary: Result<String, FetchFailure>,
) -> Option<(Seq<char>, Seq<char>)> {
    if primary is Ok {
        Some((json_file_name_spec(id), primary->Ok_0@))
    } else if secondary is Ok {
        Some((json_file_name_spec(id), secondary->Ok_0@))
    } else {
        None
    }
}

/// A written file as (name, contents), compared by view.
pub open spec fn named_text_view(o: Option<(String, String)>) -> Option<(Seq<char>, Seq<char>)> {
    match o {
        Some(p) => Some((p.0@, p.1@)),
        None => None,
    }
}

/// One ID of the scan: the file to write, if either endpoint's fetch
/// succeeded (the primary preferred), or nothing.
pub fn enum_step(
    id: u32,
    primary: &Result<String, FetchFailure>,
    secondary: &Result<String, FetchFailure>,
) -> (r: Option<(String, String)>)
    ensures
        named_text_view(r) == enum_step_spec(id, *primary, *secondary),
{
    match primary {
        Result::Ok(text) => Some((json_file_name(id), text.clone())),
        Result::Err(_) => match secondary {
            Result::Ok(text) => Some((json_file_name(id), text.clone())),
            Result::Err(_) => None,
        },
    }
}

/// The whole scan over the outcomes of both endpoints for every ID of the
/// range, in order: one entry per ID — so the scan always reaches the end —
/// holding the file to write for that ID, or nothing when both endpoints
/// failed.
pub fn run_enumeration(
    start: u32,
    end: u32,
    fetches: &Vec<(Result<String, FetchFailure>, Result<String, FetchFailure>)>,
) -> (outputs: Vec<Option<(String, String)>>)
    requires
        start < end,
        fetches@.len() == end - start + 1,
    ensures
        outputs@.len() == fetches@.len(),
        forall|i: int|
            0 <= i < fetches@.len() ==> named_text_view(#[trigger] outputs@[i]) == enum_step_spec(
                (start + i) as u32,
                fetches@[i].0,
                fetches@[i].1,
            ),
        forall|i: int|
            0 <= i < fetches@.len() && fetches@[i].0 is Err && fetches@[i].1 is Err
                ==> (#[trigger] outputs@[i]) is None,
{
    let n = fetches.len();
    let mut outputs: Vec<Option<(String, String)>> = Vec::new();
    let mut i: usize = 0;
    while i < n
        invariant
            i <= n,
            n == fetches@.len(),
            fetches@.len() == end - start + 1,
            start < end,
            outputs@.len() == i,
            forall|j: int|
                0 <= j < i ==> named_text_view(#[trigger] outputs@[j]) == enum_step_spec(
                    (start + j) as u32,
                    fetches@[j].0,
                    fetches@[j].1,
                ),
        decreases n - i,
    {
        let id = start + (i as u32);
        let o = enum_step(id, &fetches[i].0, &fetches[i].1);
        outputs.push(o);
        i += 1;
    }
    outputs
}

} // verus!
