//! Formatting an elapsed time span as its single most significant unit.
use vstd::prelude::*;
use vstd::string::*;

use crate::numeral::decimal;
use crate::numeral::decimal_string;

verus! {

pub const SECS_PER_MINUTE: u64 = 60;

pub const SECS_PER_HOUR: u64 = 60 * 60;

pub const SECS_PER_DAY: u64 = 60 * 60 * 24;

pub const SECS_PER_WEEK: u64 = 60 * 60 * 24 * 7;

/// A flat thirty-day month, an accepted approximation.
pub const SECS_PER_MONTH: u64 = 60 * 60 * 24 * 30;

/// A flat 365-day year, an accepted approximation.
pub const SECS_PER_YEAR: u64 = 60 * 60 * 24 * 365;

/// `"<count> <unit>"`, with a plural `s` appended only when the count
/// exceeds one: a count of exactly one stays singular.
pub open spec fn unit_phrase(count: nat, unit: Seq<char>) -> Seq<char> {
    decimal(count) + " "@ + unit + (if count > 1 {
        "s"@
    } else {
        Seq::<char>::empty()
    })
}

/// Which entry of the descending fixed table — years, months, weeks, days,
/// hours, minutes, seconds — a span of `secs` whole seconds selects: the
/// first unit whose floor-divided count is positive. Years rank lowest at
/// zero; a span shorter than every unit, the zero span, ranks past them all.
pub open spec fn unit_rank(secs: nat) -> int {
    if secs / (SECS_PER_YEAR as nat) > 0 {
        0
    } else if secs / (SECS_PER_MONTH as nat) > 0 {
        1
    } else if secs / (SECS_PER_WEEK as nat) > 0 {
        2
    } else if secs / (SECS_PER_DAY as nat) > 0 {
        3
    } else if secs / (SECS_PER_HOUR as nat) > 0 {
        4
    } else if secs / (SECS_PER_MINUTE as nat) > 0 {
        5
    } else if secs > 0 {
        6
    } else {
        7
    }
}

/// The phrase for an elapsed span of `secs` whole seconds: the count of the
/// unit that `unit_rank` selects, and `"0 seconds"` when every count is
/// zero. Counts use integer division throughout.
pub open spec fn duration_phrase(secs: nat) -> Seq<char> {
    let rank = unit_rank(secs);
    if rank == 0 {
        unit_phrase(secs / (SECS_PER_YEAR as nat), "year"@)
    } else if rank == 1 {
        unit_phrase(secs / (SECS_PER_MONTH as nat), "month"@)
    } else if rank == 2 {
        unit_phrase(secs / (SECS_PER_WEEK as nat), "week"@)
    } else if rank == 3 {
        unit_phrase(secs / (SECS_PER_DAY as nat), "day"@)
    } else if rank == 4 {
        unit_phrase(secs / (SECS_PER_HOUR as nat), "hour"@)
    } else if rank == 5 {
        unit_phrase(secs / (SECS_PER_MINUTE as nat), "minute"@)
    } else if rank == 6 {
        unit_phrase(secs, "second"@)
    } else {
        "0 seconds"@
    }
}

/// Law: unit selection is monotonic in the span's magnitude: a longer span
/// never selects a smaller unit than a shorter one, so its rank in the
/// descending table never comes later.
pub proof fn lemma_unit_selection_monotonic(shorter: nat, longer: nat)
    requires
        shorter <= longer,
    ensures
        unit_rank(shorter) >= unit_rank(longer),
{
    vstd::arithmetic::div_mod::lemma_div_is_ordered(
        shorter as int,
        longer as int,
        SECS_PER_YEAR as int,
    );
    vstd::arithmetic::div_mod::lemma_div_is_ordered(
        shorter as int,
        longer as int,
        SECS_PER_MONTH as int,
    );
    vstd::arithmetic::div_mod::lemma_div_is_ordered(
        shorter as int,
        longer as int,
        SECS_PER_WEEK as int,
    );
    vstd::arithmetic::div_mod::lemma_div_is_ordered(
        shorter as int,
        longer as int,
        SECS_PER_DAY as int,
    );
    vstd::arithmetic::div_mod::lemma_div_is_ordered(
        shorter as int,
        longer as int,
        SECS_PER_HOUR as int,
    );
    vstd::arithmetic::div_mod::lemma_div_is_ordered(
        shorter as int,
        longer as int,
        SECS_PER_MINUTE as int,
    );
}

fn phrase(count: u64, unit: &str) -> (r: String)
    ensures
        r@ == unit_phrase(count as nat, unit@),
{
    let mut r = decimal_string(count);
    r.append(" ");
    r.append(unit);
    if count > 1 {
        r.append("s");
    }
    proof {
        assert(r@ =~= unit_phrase(count as nat, unit@));
    }
    r
}

/// Renders the span of `secs` whole seconds in its most significant unit,
/// walking the descending unit table and keeping the first positive count.
pub fn relative_duration(secs: u64) -> (r: String)
    ensures
        r@ == duration_phrase(secs as nat),
{
    let years = secs / SECS_PER_YEAR;
    let months = secs / SECS_PER_MONTH;
    let weeks = secs / SECS_PER_WEEK;
    let days = secs / SECS_PER_DAY;
    let hours = secs / SECS_PER_HOUR;
    let minutes = secs / SECS_PER_MINUTE;
    if years > 0 {
        phrase(years, "year")
    } else if months > 0 {
        phrase(months, "month")
    } else if weeks > 0 {
        phrase(weeks, "week")
    } else if days > 0 {
        phrase(days, "day")
    } else if hours > 0 {
        phrase(hours, "hour")
    } else if minutes > 0 {
        phrase(minutes, "minute")
    } else if secs > 0 {
        phrase(secs, "second")
    } else {
        String::from_str("0 seconds")
    }
}

} // verus!
