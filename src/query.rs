//! Small decisions of the query and maintenance commands.

use vstd::prelude::*;
use crate::clock::now_millis;
use crate::model::Server;
use crate::text::{seq_contains, text_contains};

verus! {

/// Milliseconds in a day.
pub const DAY_MILLIS: i64 = 86_400_000;

/// The longest retention, in days, whose span in milliseconds fits an `i64`.
pub const MAX_RETENTION_DAYS: i64 = 106_751_991_167;

/// A server is selected by a filter equal to its id or found in its name.
pub open spec fn server_selected(s: Server, filter: Seq<char>) -> bool {
    s.server_id@ == filter || seq_contains(s.server_name@, filter)
}

/// Whether the server is selected by `filter`.
pub fn server_matches_filter(server: &Server, filter: &String) -> (r: bool)
    ensures
        r == server_selected(*server, filter@),
{
    server.server_id == *filter || text_contains(server.server_name.as_str(), filter.as_str())
}

/// The instant `days` days before `now`, when it is a representable timestamp.
pub open spec fn cutoff_spec(now: i64, days: i64) -> Option<i64> {
    let c = now - days * DAY_MILLIS;
    if i64::MIN <= c <= i64::MAX {
        Some(c as i64)
    } else {
        None
    }
}

/// The instant `days` days before `now`; `None` when it does not fit a timestamp.
pub fn retention_cutoff(now: i64, days: i64) -> (r: Option<i64>)
    ensures
        r == cutoff_spec(now, days),
{
    assert(-0x8000_0000_0000_0000 * 86_400_000 <= days * 86_400_000 <= 0x7fff_ffff_ffff_ffff
        * 86_400_000) by (nonlinear_arith)
        requires
            -0x8000_0000_0000_0000 <= days <= 0x7fff_ffff_ffff_ffff,
    ;
    let span = (days as i128) * (DAY_MILLIS as i128);
    let c = (now as i128) - span;
    if i64::MIN as i128 <= c && c <= i64::MAX as i128 {
        Some(c as i64)
    } else {
        None
    }
}

/// The instant `days` days before the current time; samples older than it
/// are due for removal. `None` when it does not fit a timestamp.
pub fn old_data_cutoff(days: i64) -> (r: Option<i64>)
    ensures
        exists|now: i64| now >= 0 && r == cutoff_spec(now, days),
        0 <= days <= MAX_RETENTION_DAYS ==> r is Some,
{
    let now = now_millis();
    proof {
        if 0 <= days <= MAX_RETENTION_DAYS {
            assert(0 <= days * DAY_MILLIS <= MAX_RETENTION_DAYS * DAY_MILLIS) by (nonlinear_arith)
                requires
                    0 <= days <= MAX_RETENTION_DAYS,
            ;
        }
    }
    retention_cutoff(now, days)
}

} // verus!
