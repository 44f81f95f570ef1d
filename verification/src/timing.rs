//! The timing converter: hours, minutes, seconds and milliseconds to a single
//! duration, saturating instead of overflowing on extreme inputs.

use vstd::prelude::*;

verus! {

/// A duration split into whole seconds and a sub-second remainder expressed
/// in nanoseconds, always a whole number of milliseconds.
#[derive(Debug, Clone, Copy, PartialEq, Eq, Structural)]
pub struct ClickDuration {
    pub secs: u64,
    pub nanos: u32,
}

/// The exact total of an interval in milliseconds, over unbounded integers.
pub open spec fn exact_total_millis(hours: int, minutes: int, seconds: int, milliseconds: int) -> int {
    milliseconds + 1000 * seconds + 60 * 1000 * minutes + 60 * 60 * 1000 * hours
}

/// The total in milliseconds as the converter represents it: the exact total,
/// capped at the largest representable count.
pub open spec fn clamped_total_millis(
    hours: int,
    minutes: int,
    seconds: int,
    milliseconds: int,
) -> int {
    if exact_total_millis(hours, minutes, seconds, milliseconds) > u64::MAX as int {
        u64::MAX as int
    } else {
        exact_total_millis(hours, minutes, seconds, milliseconds)
    }
}

/// A millisecond count split into whole seconds and leftover nanoseconds.
pub open spec fn duration_from_millis(total_millis: int) -> ClickDuration {
    ClickDuration {
        secs: (total_millis / 1000) as u64,
        nanos: ((total_millis % 1000) * 1_000_000) as u32,
    }
}

/// What the converter returns for the given components.
pub open spec fn converted_duration(
    hours: int,
    minutes: int,
    seconds: int,
    milliseconds: int,
) -> ClickDuration {
    duration_from_millis(clamped_total_millis(hours, minutes, seconds, milliseconds))
}

/// The largest duration the converter can represent.
pub open spec fn max_duration() -> ClickDuration {
    duration_from_millis(u64::MAX as int)
}

/// A duration read back as a total count of milliseconds.
pub open spec fn duration_total_millis(duration: ClickDuration) -> int {
    duration.secs * 1000 + duration.nanos as int / 1_000_000
}

/// The sub-second remainder stays below one second.
pub open spec fn wf_duration(duration: ClickDuration) -> bool {
    duration.nanos < 1_000_000_000
}

/// Converts a decomposed interval to a duration. The total is
/// `milliseconds + 1000 * seconds + 60000 * minutes + 3600000 * hours`,
/// saturating at the largest representable count instead of wrapping or
/// panicking on extreme inputs.
pub fn convert_time_to_duration(
    hours: usize,
    minutes: usize,
    seconds: usize,
    milliseconds: usize,
) -> (duration: ClickDuration)
    ensures
        duration == converted_duration(
            hours as int,
            minutes as int,
            seconds as int,
            milliseconds as int,
        ),
        wf_duration(duration),
{
    let millis_part: u64 = milliseconds as u64;
    let seconds_part: u64 = match (seconds as u64).checked_mul(1000) {
        Some(value) => value,
        None => u64::MAX,
    };
    let minutes_part: u64 = match (minutes as u64).checked_mul(60 * 1000) {
        Some(value) => value,
        None => u64::MAX,
    };
    let hours_part: u64 = match (hours as u64).checked_mul(60 * 60 * 1000) {
        Some(value) => value,
        None => u64::MAX,
    };
    let total_millis: u64 = millis_part
        .saturating_add(seconds_part)
        .saturating_add(minutes_part)
        .saturating_add(hours_part);
    proof {
        let cap = u64::MAX as int;
        let exact = exact_total_millis(
            hours as int,
            minutes as int,
            seconds as int,
            milliseconds as int,
        );
        assert(millis_part == milliseconds as int);
        assert(seconds_part == if 1000 * (seconds as int) > cap {
            cap
        } else {
            1000 * (seconds as int)
        });
        assert(minutes_part == if 60 * 1000 * (minutes as int) > cap {
            cap
        } else {
            60 * 1000 * (minutes as int)
        });
        assert(hours_part == if 60 * 60 * 1000 * (hours as int) > cap {
            cap
        } else {
            60 * 60 * 1000 * (hours as int)
        });
        assert(total_millis == if exact > cap {
            cap
        } else {
            exact
        });
    }
    let whole_seconds: u64 = total_millis / 1000;
    let sub_millis: u32 = (total_millis % 1000) as u32;
    let nanos: u32 = sub_millis * 1_000_000;
    ClickDuration { secs: whole_seconds, nanos }
}

/// Increasing any one component of an interval never decreases the converted
/// duration.
pub proof fn lemma_convert_monotonic(
    h1: int,
    m1: int,
    s1: int,
    ms1: int,
    h2: int,
    m2: int,
    s2: int,
    ms2: int,
)
    requires
        0 <= h1 <= h2,
        0 <= m1 <= m2,
        0 <= s1 <= s2,
        0 <= ms1 <= ms2,
    ensures
        duration_total_millis(converted_duration(h1, m1, s1, ms1))
            <= duration_total_millis(converted_duration(h2, m2, s2, ms2)),
{
    let t1 = clamped_total_millis(h1, m1, s1, ms1);
    let t2 = clamped_total_millis(h2, m2, s2, ms2);
    assert(ms1 + 1000 * s1 + 60 * 1000 * m1 + 60 * 60 * 1000 * h1 <= ms2 + 1000 * s2 + 60
        * 1000 * m2 + 60 * 60 * 1000 * h2) by (nonlinear_arith)
        requires
            0 <= h1 <= h2,
            0 <= m1 <= m2,
            0 <= s1 <= s2,
            0 <= ms1 <= ms2,
    ;
    assert(exact_total_millis(h1, m1, s1, ms1) <= exact_total_millis(h2, m2, s2, ms2));
    assert(t1 <= t2);
    lemma_millis_roundtrip(t1);
    lemma_millis_roundtrip(t2);
}

/// Splitting a representable millisecond count into seconds and nanoseconds
/// and reading it back loses nothing.
pub proof fn lemma_millis_roundtrip(total_millis: int)
    requires
        0 <= total_millis <= u64::MAX as int,
    ensures
        duration_total_millis(duration_from_millis(total_millis)) == total_millis,
{
    assert(total_millis == 1000 * (total_millis / 1000) + total_millis % 1000);
    assert(((total_millis % 1000) * 1_000_000) / 1_000_000 == total_millis % 1000) by (nonlinear_arith);
}

/// Converting inputs whose exact total exceeds the representable range yields
/// the maximum representable duration, never a wrapped or negative value.
pub proof fn lemma_convert_saturates(hours: int, minutes: int, seconds: int, milliseconds: int)
    requires
        0 <= hours,
        0 <= minutes,
        0 <= seconds,
        0 <= milliseconds,
        exact_total_millis(hours, minutes, seconds, milliseconds) >= u64::MAX as int,
    ensures
        converted_duration(hours, minutes, seconds, milliseconds) == max_duration(),
{
}

} // verus!
