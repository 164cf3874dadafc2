use vstd::prelude::*;
use vstd::string::*;
use crate::clock::{hours_of, minutes_of, seconds_of, uptime_parts};
use crate::friendly::{
    FriendlyBreakdown, centuries_of, days_of, friendly, friendly_text, months_of, weeks_of,
    years_of,
};
use crate::text::{decimal, decimal_string};

verus! {

/// The plain report line.
pub open spec fn plain_text(
    h: nat,
    m: nat,
    s: nat,
    load1: Seq<char>,
    load5: Seq<char>,
    load15: Seq<char>,
    users: nat,
) -> Seq<char> {
    "uptime: "@ + decimal(h) + "h:"@ + decimal(m) + "m:"@ + decimal(s) + "s, load average: "@
        + load1 + " "@ + load5 + " "@ + load15 + ", users: "@ + decimal(users)
}

/// The structured report: an object of five counters and the friendly form,
/// one field per line, indented by four spaces.
pub open spec fn json_text(
    days: nat,
    weeks: nat,
    months: nat,
    years: nat,
    centuries: nat,
    friendly_format: Seq<char>,
) -> Seq<char> {
    "{\n    \"days\": "@ + decimal(days) + ",\n    \"weeks\": "@ + decimal(weeks)
        + ",\n    \"months\": "@ + decimal(months) + ",\n    \"years\": "@ + decimal(years)
        + ",\n    \"centuries\": "@ + decimal(centuries) + ",\n    \"friendly_format\": \""@
        + friendly_format + "\"\n}"@
}

/// The structured report for an uptime of `hours` hours.
pub open spec fn structured_text(hours: nat) -> Seq<char> {
    let days = days_of(hours);
    json_text(
        days,
        weeks_of(days),
        months_of(days),
        years_of(days),
        centuries_of(years_of(days)),
        friendly_text(hours),
    )
}

/// What the program prints for an uptime of `secs` seconds, the three load
/// figures as written, `users` sessions and the command-line argument, if
/// any: the plain line without one, the structured report for `--json`, and
/// nothing for any other argument.
pub open spec fn report_text(
    secs: nat,
    load1: Seq<char>,
    load5: Seq<char>,
    load15: Seq<char>,
    users: nat,
    flag: Option<Seq<char>>,
) -> Option<Seq<char>> {
    match flag {
        None => Some(
            plain_text(
                hours_of(secs),
                minutes_of(secs),
                seconds_of(secs),
                load1,
                load5,
                load15,
                users,
            ),
        ),
        Some(f) => if f == "--json"@ {
            Some(structured_text(hours_of(secs)))
        } else {
            None
        },
    }
}

/// Writes the plain report line.
pub fn render_plain(
    h: u64,
    m: u64,
    s: u64,
    load1: &str,
    load5: &str,
    load15: &str,
    users: u64,
) -> (r: String)
    ensures
        r@ == plain_text(h as nat, m as nat, s as nat, load1@, load5@, load15@, users as nat),
{
    let mut out = String::from_str("uptime: ");
    out.append(decimal_string(h).as_str());
    out.append("h:");
    out.append(decimal_string(m).as_str());
    out.append("m:");
    out.append(decimal_string(s).as_str());
    out.append("s, load average: ");
    out.append(load1);
    out.append(" ");
    out.append(load5);
    out.append(" ");
    out.append(load15);
    out.append(", users: ");
    out.append(decimal_string(users).as_str());
    out
}

/// Writes the structured report of a breakdown.
pub fn render_json(b: &FriendlyBreakdown) -> (r: String)
    ensures
        r@ == json_text(
            b.days as nat,
            b.weeks as nat,
            b.months as nat,
            b.years as nat,
            b.centuries as nat,
            b.friendly_format@,
        ),
{
    let mut out = String::from_str("{\n    \"days\": ");
    out.append(decimal_string(b.days).as_str());
    out.append(",\n    \"weeks\": ");
    out.append(decimal_string(b.weeks).as_str());
    out.append(",\n    \"months\": ");
    out.append(decimal_string(b.months).as_str());
    out.append(",\n    \"years\": ");
    out.append(decimal_string(b.years).as_str());
    out.append(",\n    \"centuries\": ");
    out.append(decimal_string(b.centuries).as_str());
    out.append(",\n    \"friendly_format\": \"");
    out.append(b.friendly_format.as_str());
    out.append("\"\n}");
    out
}

/// Chooses and writes the report for an uptime of `secs` seconds, the three
/// load figures as they are to be shown, `users` sessions and the
/// command-line argument, if any. The result depends on these values alone.
pub fn report(
    secs: u64,
    load1: &str,
    load5: &str,
    load15: &str,
    users: u64,
    flag: Option<&str>,
) -> (r: Option<String>)
    ensures
        r.is_some() == report_text(
            secs as nat,
            load1@,
            load5@,
            load15@,
            users as nat,
            match flag { Some(f) => Some(f@), None => None },
        ).is_some(),
        r matches Some(t) ==> t@ == report_text(
            secs as nat,
            load1@,
            load5@,
            load15@,
            users as nat,
            match flag { Some(f) => Some(f@), None => None },
        ).unwrap(),
{
    let (h, m, s) = uptime_parts(secs);
    match flag {
        None => Some(render_plain(h, m, s, load1, load5, load15, users)),
        Some(f) => {
            if String::from_str(f) == String::from_str("--json") {
                Some(render_json(&friendly(h)))
            } else {
                None
            }
        },
    }
}

} // verus!
