use vstd::prelude::*;
use vstd::string::*;
use crate::text::{decimal, decimal_string};

verus! {

/// Whole days in an uptime of `hours` hours; none until it passes a day.
pub open spec fn days_of(hours: nat) -> nat {
    if hours > 24 { hours / 24 } else { 0 }
}

/// Whole weeks in `days` days; none under a week.
pub open spec fn weeks_of(days: nat) -> nat {
    if days >= 7 { days / 7 } else { 0 }
}

/// Months counted as thirty days; none under thirty days.
pub open spec fn months_of(days: nat) -> nat {
    if days >= 30 { days / 30 } else { 0 }
}

/// The year counter: from 365 days on, the day count divided by three.
pub open spec fn years_of(days: nat) -> nat {
    if days >= 365 { days / 3 } else { 0 }
}

/// Centuries of the year counter; none under a hundred.
pub open spec fn centuries_of(years: nat) -> nat {
    if years >= 100 { years / 100 } else { 0 }
}

/// The hours that are left over beside the whole days, as `"N hours, "`.
pub open spec fn hours_fragment(hours: nat) -> Seq<char> {
    if hours > 24 && hours % 24 != 0 {
        decimal(hours % 24) + " hours, "@
    } else {
        seq![]
    }
}

/// The days that are left over beside the whole weeks, as `"1 day, "` or
/// `"N days, "`.
pub open spec fn days_fragment(days: nat) -> Seq<char> {
    if days >= 7 && days % 7 != 0 {
        decimal(days % 7) + if days % 7 == 1 { " day, "@ } else { " days, "@ }
    } else {
        seq![]
    }
}

/// The whole weeks, as `"1 week, "` or `"N weeks, "`.
pub open spec fn weeks_fragment(days: nat) -> Seq<char> {
    if days >= 7 && days / 7 > 0 {
        decimal(days / 7) + if days / 7 == 1 { " week, "@ } else { " weeks, "@ }
    } else {
        seq![]
    }
}

/// `s` without a final `", "`, if it ends with one.
pub open spec fn strip_separator(s: Seq<char>) -> Seq<char> {
    if s.len() >= 2 && s.subrange(s.len() - 2, s.len() as int) == seq![',', ' '] {
        s.subrange(0, s.len() - 2)
    } else {
        s
    }
}

/// The friendly form of an uptime of `hours` hours: weeks, then days, then
/// hours, each present only when non-zero.
pub open spec fn friendly_text(hours: nat) -> Seq<char> {
    let days = days_of(hours);
    strip_separator(weeks_fragment(days) + days_fragment(days) + hours_fragment(hours))
}

/// An uptime of whole hours broken down into larger units.
pub struct FriendlyBreakdown {
    pub days: u64,
    pub weeks: u64,
    pub months: u64,
    pub years: u64,
    pub centuries: u64,
    pub friendly_format: String,
}

fn strip_separator_exec(s: String) -> (r: String)
    ensures
        r@ == strip_separator(s@),
{
    let n = s.as_str().unicode_len();
    if n >= 2 && s.as_str().get_char(n - 2) == ',' && s.as_str().get_char(n - 1) == ' ' {
        assert(s@.subrange(n - 2, n as int) =~= seq![',', ' ']);
        String::from_str(s.as_str().substring_char(0, n - 2))
    } else {
        assert(n >= 2 ==> s@.subrange(n - 2, n as int)[0] == s@[n - 2]);
        assert(n >= 2 ==> s@.subrange(n - 2, n as int)[1] == s@[n - 1]);
        s
    }
}

/// Breaks an uptime of `hours` hours down into days, weeks, months, years
/// and centuries, with its friendly form.
pub fn friendly(hours: u64) -> (r: FriendlyBreakdown)
    ensures
        r.days == days_of(hours as nat),
        r.weeks == weeks_of(r.days as nat),
        r.months == months_of(r.days as nat),
        r.years == years_of(r.days as nat),
        r.centuries == centuries_of(r.years as nat),
        r.friendly_format@ == friendly_text(hours as nat),
{
    let mut days: u64 = 0;
    let mut weeks: u64 = 0;
    let mut months: u64 = 0;
    let mut years: u64 = 0;
    let mut centuries: u64 = 0;
    let mut friendly_hours = String::new();
    let mut friendly_days = String::new();
    let mut friendly_weeks = String::new();
    if hours > 24 {
        days = hours / 24;
        if hours % 24 != 0 {
            friendly_hours = decimal_string(hours % 24);
            friendly_hours.append(" hours, ");
        }
    }
    if days >= 7 {
        weeks = days / 7;
        if days % 7 != 0 {
            friendly_days = decimal_string(days % 7);
            if days % 7 == 1 {
                friendly_days.append(" day, ");
            } else {
                friendly_days.append(" days, ");
            }
        }
        if weeks > 0 {
            friendly_weeks = decimal_string(weeks);
            if weeks == 1 {
                friendly_weeks.append(" week, ");
            } else {
                friendly_weeks.append(" weeks, ");
            }
        }
    }
    if days >= 30 {
        months = days / 30;
    }
    if days >= 365 {
        years = days / 3;
    }
    if years >= 100 {
        centuries = years / 100;
    }
    let mut combined = friendly_weeks;
    combined.append(friendly_days.as_str());
    combined.append(friendly_hours.as_str());
    assert(combined@ =~= weeks_fragment(days as nat) + days_fragment(days as nat)
        + hours_fragment(hours as nat));
    FriendlyBreakdown {
        days,
        weeks,
        months,
        years,
        centuries,
        friendly_format: strip_separator_exec(combined),
    }
}

} // verus!
