//! Plain-text rendering of durations, timestamps and client lists.
//!
//! The shell decorates these strings (colors, emphasis) before printing;
//! what is rendered here is the text itself.

use vstd::prelude::*;

use crate::decimal::{spec_u64_digits, u64_to_string};

verus! {

/// A duration in the largest two applicable units: seconds, then minutes
/// and seconds, hours and minutes, days and hours; an exact multiple of the
/// larger unit shows that unit alone.
pub open spec fn spec_format_duration(secs: nat) -> Seq<char> {
    if secs < 60 {
        spec_u64_digits(secs) + "s"@
    } else if secs < 3600 {
        let mins = secs / 60;
        let rest = secs % 60;
        if rest == 0 {
            spec_u64_digits(mins) + "m"@
        } else {
            spec_u64_digits(mins) + "m "@ + spec_u64_digits(rest) + "s"@
        }
    } else if secs < 86400 {
        let hours = secs / 3600;
        let mins = (secs % 3600) / 60;
        if mins == 0 {
            spec_u64_digits(hours) + "h"@
        } else {
            spec_u64_digits(hours) + "h "@ + spec_u64_digits(mins) + "m"@
        }
    } else {
        let days = secs / 86400;
        let hours = (secs % 86400) / 3600;
        if hours == 0 {
            spec_u64_digits(days) + "d"@
        } else {
            spec_u64_digits(days) + "d "@ + spec_u64_digits(hours) + "h"@
        }
    }
}

/// Render a duration in a human-readable way.
pub fn format_duration(secs: u64) -> (r: String)
    ensures
        r@ == spec_format_duration(secs as nat),
{
    if secs < 60 {
        let mut s = u64_to_string(secs);
        s.append("s");
        s
    } else if secs < 3600 {
        let mins = secs / 60;
        let rest = secs % 60;
        let mut s = u64_to_string(mins);
        if rest == 0 {
            s.append("m");
        } else {
            s.append("m ");
            let digits = u64_to_string(rest);
            s.append(digits.as_str());
            s.append("s");
        }
        s
    } else if secs < 86400 {
        let hours = secs / 3600;
        let mins = (secs % 3600) / 60;
        let mut s = u64_to_string(hours);
        if mins == 0 {
            s.append("h");
        } else {
            s.append("h ");
            let digits = u64_to_string(mins);
            s.append(digits.as_str());
            s.append("m");
        }
        s
    } else {
        let days = secs / 86400;
        let hours = (secs % 86400) / 3600;
        let mut s = u64_to_string(days);
        if hours == 0 {
            s.append("d");
        } else {
            s.append("d ");
            let digits = u64_to_string(hours);
            s.append(digits.as_str());
            s.append("h");
        }
        s
    }
}

/// How long ago an instant lies, in coarse units; an instant after `now`
/// reads "in the future".
pub open spec fn spec_format_timestamp(now: int, event: int) -> Seq<char> {
    if event > now {
        "in the future"@
    } else {
        let secs = now - event;
        if secs < 60 {
            "just now"@
        } else if secs < 3600 {
            spec_u64_digits((secs / 60) as nat) + "m ago"@
        } else if secs < 86400 {
            if secs / 3600 == 1 {
                "1h ago"@
            } else {
                spec_u64_digits((secs / 3600) as nat) + "h ago"@
            }
        } else {
            if secs / 86400 == 1 {
                "1 day ago"@
            } else {
                spec_u64_digits((secs / 86400) as nat) + " days ago"@
            }
        }
    }
}

/// Render how long before `now_secs` the instant `event_secs` lies, both in
/// unix seconds.
pub fn format_timestamp(now_secs: i64, event_secs: i64) -> (r: String)
    ensures
        r@ == spec_format_timestamp(now_secs as int, event_secs as int),
{
    if event_secs > now_secs {
        return "in the future".to_owned();
    }
    let secs: u64 = (now_secs as i128 - event_secs as i128) as u64;
    if secs < 60 {
        "just now".to_owned()
    } else if secs < 3600 {
        let mut s = u64_to_string(secs / 60);
        s.append("m ago");
        s
    } else if secs < 86400 {
        let hours = secs / 3600;
        if hours == 1 {
            "1h ago".to_owned()
        } else {
            let mut s = u64_to_string(hours);
            s.append("h ago");
            s
        }
    } else {
        let days = secs / 86400;
        if days == 1 {
            "1 day ago".to_owned()
        } else {
            let mut s = u64_to_string(days);
            s.append(" days ago");
            s
        }
    }
}

/// The first `k` names joined with a comma and a space.
pub open spec fn spec_join_prefix(names: Seq<String>, k: int) -> Seq<char>
    decreases k,
{
    if k <= 0 {
        Seq::empty()
    } else if k == 1 {
        names[0]@
    } else {
        spec_join_prefix(names, k - 1) + ", "@ + names[k - 1]@
    }
}

/// The rendered client list: `(none)` when empty, all names when at most
/// `max_display` of them, else the first `max_display` and a count of the
/// rest.
pub open spec fn spec_format_clients(names: Seq<String>, max_display: int) -> Seq<char> {
    if names.len() == 0 {
        "(none)"@
    } else if names.len() <= max_display {
        spec_join_prefix(names, names.len() as int)
    } else {
        spec_join_prefix(names, max_display) + ", +"@ + spec_u64_digits(
            (names.len() - max_display) as nat,
        ) + " more"@
    }
}

fn join_prefix(names: &Vec<String>, k: usize) -> (r: String)
    requires
        k <= names@.len(),
    ensures
        r@ == spec_join_prefix(names@, k as int),
{
    let mut s = String::new();
    let mut i: usize = 0;
    while i < k
        invariant
            k <= names@.len(),
            i <= k,
            s@ == spec_join_prefix(names@, i as int),
        decreases k - i,
    {
        if i > 0 {
            s.append(", ");
        }
        s.append(names[i].as_str());
        i = i + 1;
    }
    s
}

/// Render a list of client names, showing at most `max_display` of them.
pub fn format_clients(clients: &Vec<String>, max_display: usize) -> (r: String)
    ensures
        r@ == spec_format_clients(clients@, max_display as int),
{
    if clients.len() == 0 {
        "(none)".to_owned()
    } else if clients.len() <= max_display {
        join_prefix(clients, clients.len())
    } else {
        let mut s = join_prefix(clients, max_display);
        s.append(", +");
        let digits = u64_to_string((clients.len() - max_display) as u64);
        s.append(digits.as_str());
        s.append(" more");
        s
    }
}

} // verus!
