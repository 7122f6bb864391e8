use vstd::prelude::*;
use crate::strutil::str_eq;

verus! {

/// The value the player's loop-file property should take next, given its
/// current value: looping toggles off when it is on and on when it is off.
pub open spec fn spec_next_loop(cur: Seq<char>) -> Option<Seq<char>> {
    if cur == "inf"@ || cur == "yes"@ {
        Some("no"@)
    } else if cur == "no"@ || cur == "1"@ {
        Some("inf"@)
    } else {
        None
    }
}

/// Decides the next value of the playback engine's loop-file property from
/// its current value; an unexpected current value yields `None`.
pub fn next_loop_value(cur: &str) -> (r: Option<&'static str>)
    ensures
        match r {
            Some(s) => spec_next_loop(cur@) == Some(s@),
            None => spec_next_loop(cur@) is None,
        },
{
    if str_eq(cur, "inf") || str_eq(cur, "yes") {
        Some("no")
    } else if str_eq(cur, "no") || str_eq(cur, "1") {
        Some("inf")
    } else {
        None
    }
}

/// How long to sleep after queueing the next track: the time remaining on the
/// current one when the engine reports it, and a fixed fallback otherwise.
pub fn sleep_seconds(remain: Option<u64>) -> (r: u64)
    ensures
        match remain {
            Some(t) => r == t,
            None => r == 90,
        },
{
    match remain {
        Some(t) => t,
        None => 90,
    }
}

/// Converts the playback engine's raw time-remaining property, which reports
/// an error as an absent value, into whole seconds.
pub fn time_remain_secs(raw: Option<i64>) -> (r: Option<u64>)
    ensures
        match raw {
            Some(x) => 0 <= x ==> r == Some(x as u64),
            None => r is None,
        },
        raw is Some && raw->0 < 0 ==> r is None,
{
    match raw {
        Some(x) => {
            if x >= 0 {
                Some(x as u64)
            } else {
                None
            }
        },
        None => None,
    }
}

} // verus!
