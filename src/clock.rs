use vstd::prelude::*;

verus! {

/// Hours of an uptime given in whole seconds.
pub open spec fn hours_of(secs: nat) -> nat {
    secs / 3600
}

/// Minutes left over once the whole hours are taken out.
pub open spec fn minutes_of(secs: nat) -> nat {
    ((secs - 3600 * hours_of(secs)) as nat) / 60
}

/// Seconds left over once the whole hours and minutes are taken out.
pub open spec fn seconds_of(secs: nat) -> nat {
    (secs - 3600 * hours_of(secs) - 60 * minutes_of(secs)) as nat
}

/// Splits an uptime in whole seconds into hours, minutes and seconds; the
/// three parts add back up to the input.
pub fn uptime_parts(secs: u64) -> (r: (u64, u64, u64))
    ensures
        r.0 == hours_of(secs as nat),
        r.1 == minutes_of(secs as nat),
        r.2 == seconds_of(secs as nat),
        r.1 < 60,
        r.2 < 60,
        r.0 * 3600 + r.1 * 60 + r.2 == secs,
{
    let h: u64 = secs / 3600;
    let m: u64 = (secs - h * 3600) / 60;
    let s: u64 = secs - h * 3600 - m * 60;
    (h, m, s)
}

/// The number of seconds that hours, minutes and seconds stand for.
pub open spec fn hms_seconds(h: nat, m: nat, s: nat) -> nat {
    h * 3600 + m * 60 + s
}

/// Splitting a count of seconds into hours, minutes and seconds loses
/// nothing: the parts add back up to the count.
pub proof fn hms_total(secs: nat)
    ensures
        hms_seconds(hours_of(secs), minutes_of(secs), seconds_of(secs)) == secs,
        minutes_of(secs) < 60,
        seconds_of(secs) < 60,
{
}

} // verus!
