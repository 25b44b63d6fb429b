//! When the scheduled digest is due: twice a day, at times of the day in India.

use vstd::arithmetic::div_mod::{lemma_fundamental_div_mod, lemma_mod_multiples_vanish};
use vstd::prelude::*;

use crate::text::number::is_digit;
use crate::text::opt_str;

verus! {

/// India is five and a half hours ahead of UTC, all year round.
pub const IST_OFFSET_SECONDS: u32 = 19800;

/// The prompt of the scheduled digest.
pub const SCHEDULED_DIGEST_PROMPT: &'static str = "What changed in the watch list in the last 12 hours?";

/// Nanoseconds in a second.
pub open spec fn second() -> int {
    1_000_000_000
}

/// Nanoseconds in a day.
pub open spec fn day() -> int {
    86_400 * second()
}

/// The local time in nanoseconds since the local midnight with which 1970 began.
pub open spec fn local_time(secs: int, nanos: int) -> int {
    (secs + IST_OFFSET_SECONDS) * second() + nanos
}

/// The local midnight that has passed last.
pub open spec fn midnight(local: int) -> int {
    local / day() * day()
}

/// The earlier of two times, of which either may be none.
pub open spec fn earlier(a: Option<int>, b: Option<int>) -> Option<int> {
    match a {
        None => b,
        Some(x) => match b {
            None => a,
            Some(y) => if x <= y {
                a
            } else {
                b
            },
        },
    }
}

/// `t`, where it is still ahead.
pub open spec fn ahead(t: int, local: int) -> Option<int> {
    if t > local {
        Some(t)
    } else {
        None
    }
}

/// The next trigger after `local`: the earliest of the two of today and the two of tomorrow that
/// is still ahead. `morning` and `evening` are seconds after midnight, in either order.
pub open spec fn next_trigger(local: int, morning: int, evening: int) -> Option<int> {
    let today = midnight(local);
    let tomorrow = today + day();
    earlier(
        earlier(
            ahead(today + morning * second(), local),
            ahead(today + evening * second(), local),
        ),
        earlier(
            ahead(tomorrow + morning * second(), local),
            ahead(tomorrow + evening * second(), local),
        ),
    )
}

/// Triggers are told by the clock of a zone that is five and a half hours ahead.
pub proof fn clock_is_ahead(secs: int, nanos: int)
    ensures
        local_time(secs, nanos) == (secs + 5 * 3600 + 30 * 60) * 1_000_000_000 + nanos,
{
}

/// The next trigger is a morning or an evening, it lies ahead by at most a day, and no trigger
/// lies between now and then.
pub proof fn trigger_is_the_next_one(local: int, morning: int, evening: int)
    requires
        0 <= morning < 86_400,
        0 <= evening < 86_400,
    ensures
        next_trigger(local, morning, evening) matches Some(t) && {
            &&& local < t <= local + day()
            &&& t % day() == morning * second() || t % day() == evening * second()
            &&& forall|u: int|
                local < u < t ==> #[trigger] (u % day()) != morning * second() && u % day()
                    != evening * second()
        },
{
    let today = midnight(local);
    let tomorrow = today + day();
    lemma_fundamental_div_mod(local, day());
    assert(local == day() * (local / day()) + local % day());
    assert(today == day() * (local / day())) by (nonlinear_arith)
        requires
            today == local / day() * day(),
    ;
    let m = morning * second();
    let e = evening * second();
    assert(0 <= m < day());
    assert(0 <= e < day());
    let t = next_trigger(local, morning, evening)->Some_0;
    time_of_day(local / day(), m);
    time_of_day(local / day(), e);
    time_of_day(local / day() + 1, m);
    time_of_day(local / day() + 1, e);
    assert((local / day() + 1) * day() == tomorrow) by (nonlinear_arith)
        requires
            today == day() * (local / day()),
            tomorrow == today + day(),
    ;
    assert((local / day()) * day() == today);
    assert forall|u: int| local < u < t implies #[trigger] (u % day()) != m && u % day() != e by {
        lemma_fundamental_div_mod(u, day());
        assert(today <= u < tomorrow + day());
        assert(u / day() == local / day() || u / day() == local / day() + 1) by (nonlinear_arith)
            requires
                u == day() * (u / day()) + u % day(),
                0 <= u % day() < day(),
                today == day() * (local / day()),
                tomorrow == today + day(),
                today <= u < tomorrow + day(),
                day() == 86_400 * 1_000_000_000,
        ;
        if u / day() == local / day() {
            assert(u == today + u % day());
        } else {
            assert(u == tomorrow + u % day());
        }
    }
}

proof fn time_of_day(n: int, t: int)
    requires
        0 <= t < day(),
    ensures
        (n * day() + t) % day() == t,
{
    lemma_mod_multiples_vanish(n, t, day());
    assert(day() * n == n * day()) by (nonlinear_arith);
    vstd::arithmetic::div_mod::lemma_small_mod(t as nat, day() as nat);
}

/// How long it is from a time of the day to the next `trigger`, in nanoseconds.
fn until(now: u128, trigger: u32) -> (r: u128)
    requires
        now < 86_400_000_000_000,
        trigger < 86_400,
    ensures
        r == if trigger * 1_000_000_000 > now {
            trigger * 1_000_000_000 - now
        } else {
            trigger * 1_000_000_000 + 86_400_000_000_000 - now
        },
{
    let t: u128 = trigger as u128 * 1_000_000_000;
    if t > now {
        t - now
    } else {
        t + 86_400_000_000_000 - now
    }
}

/// How long to wait from now until the next trigger, in seconds and nanoseconds. Now is given in
/// seconds since 1970 and nanoseconds, the triggers in seconds after midnight.
pub fn next_trigger_duration(secs: i64, nanos: u32, morning: u32, evening: u32) -> (r: (u64, u32))
    requires
        nanos < 1_000_000_000,
        morning < 86_400,
        evening < 86_400,
    ensures
        next_trigger(local_time(secs as int, nanos as int), morning as int, evening as int)
            == Some(local_time(secs as int, nanos as int) + r.0 * second() + r.1),
        r.1 < 1_000_000_000,
{
    // A whole number of days that is larger than any number of seconds that comes in.
    let shift: i128 = 86_400 * 1_000_000_000_000_000;
    let shifted: u128 = (secs as i128 + IST_OFFSET_SECONDS as i128 + shift) as u128;
    let second_of_day: u128 = shifted % 86_400;
    let now: u128 = second_of_day * 1_000_000_000 + nanos as u128;
    let a = until(now, morning);
    let b = until(now, evening);
    let wait: u128 = if a <= b {
        a
    } else {
        b
    };
    proof {
        let s = secs + IST_OFFSET_SECONDS;
        let local = local_time(secs as int, nanos as int);
        lemma_mod_multiples_vanish(1_000_000_000_000_000, s, 86_400);
        assert(second_of_day == s % 86_400);
        lemma_fundamental_div_mod(s, 86_400);
        let d = s / 86_400;
        assert(local == d * day() + now) by (nonlinear_arith)
            requires
                s == 86_400 * d + second_of_day,
                local == s * 1_000_000_000 + nanos,
                now == second_of_day * 1_000_000_000 + nanos,
                day() == 86_400 * 1_000_000_000,
        ;
        assert(local / day() == d) by (nonlinear_arith)
            requires
                local == d * day() + now,
                0 <= now < day(),
                day() > 0,
        ;
        assert(midnight(local) == d * day());
        assert(local == midnight(local) + now);
    }
    let r: (u64, u32) = ((wait / 1_000_000_000) as u64, (wait % 1_000_000_000) as u32);
    assert(r.0 * second() + r.1 == wait);
    r
}

// ─── Trigger times ──────────────────────────────────────────────────────────

/// The value of a decimal digit.
pub open spec fn digit_value(c: char) -> int {
    c as u32 - '0' as u32
}

/// The seconds after midnight of a time written with two digits, a colon and two digits.
pub open spec fn hours_and_minutes(s: Seq<char>) -> Option<u32> {
    if s.len() == 5 && is_digit(s[0]) && is_digit(s[1]) && s[2] == ':' && is_digit(s[3]) && is_digit(
        s[4],
    ) {
        let hour = digit_value(s[0]) * 10 + digit_value(s[1]);
        let minute = digit_value(s[3]) * 10 + digit_value(s[4]);
        if hour < 24 && minute < 60 {
            Some((hour * 3600 + minute * 60) as u32)
        } else {
            None
        }
    } else {
        None
    }
}

/// What `NaiveTime::parse_from_str` of chrono with the format `%H:%M` makes of a text: seconds
/// after midnight, or none where it refuses the text.
pub uninterp spec fn clock_time(s: Seq<char>) -> Option<u32>;

/// Calls `NaiveTime::parse_from_str` of chrono with the format `%H:%M` and
/// `num_seconds_from_midnight` on its result. A time written with two digits, a colon and two
/// digits is read as that time; whatever is read lies within a day. Which other texts are taken
/// is not said here.
#[verifier::external_body]
fn read_clock(s: &str) -> (r: Option<u32>)
    ensures
        r == clock_time(s@),
        hours_and_minutes(s@) is Some ==> r == hours_and_minutes(s@),
        r matches Some(t) ==> t < 86_400,
{
    chrono::NaiveTime::parse_from_str(s, "%H:%M").ok().map(
        |t| chrono::Timelike::num_seconds_from_midnight(&t),
    )
}

/// A trigger time as it was read.
pub struct Trigger {
    /// Seconds after midnight; none where neither the setting nor the default can be read.
    pub seconds: Option<u32>,
    /// Whether the setting could not be read, so that the default stands in.
    pub fell_back: bool,
}

/// The trigger time, given what the setting, or the default where there is none, and the default
/// were read as.
pub open spec fn trigger_seconds(setting: Option<u32>, default: Option<u32>) -> Option<u32> {
    match setting {
        Some(t) => Some(t),
        None => default,
    }
}

/// The trigger time, given what the setting and the default were read as.
pub fn choose_trigger(setting: Option<u32>, default: Option<u32>) -> (r: Trigger)
    ensures
        r.seconds == trigger_seconds(setting, default),
        r.fell_back == setting is None,
{
    match setting {
        Some(t) => Trigger { seconds: Some(t), fell_back: false },
        None => Trigger { seconds: default, fell_back: true },
    }
}

/// What a setting is read as: a time written as `HH:MM` as that time.
pub open spec fn setting_read(setting: Option<Seq<char>>, default: u32) -> Option<u32> {
    match setting {
        None => Some(default),
        Some(s) => match hours_and_minutes(s) {
            Some(t) => Some(t),
            None => trigger_seconds(clock_time(s), Some(default)),
        },
    }
}

/// Whether there is a setting that cannot be read: a time written as `HH:MM` always can.
pub open spec fn unreadable(setting: Option<Seq<char>>) -> bool {
    setting matches Some(s) && hours_and_minutes(s) is None && clock_time(s) is None
}

/// Reads a trigger time in the form `HH:MM` from a setting, falling back to `default` where there
/// is none or where it cannot be read.
pub fn parse_trigger_time(setting: Option<&str>, default: &str) -> (r: Trigger)
    ensures
        r.seconds == trigger_seconds(
            clock_time(
                match opt_str(setting) {
                    Some(s) => s,
                    None => default@,
                },
            ),
            clock_time(default@),
        ),
        r.seconds matches Some(t) ==> t < 86_400,
        hours_and_minutes(default@) matches Some(d) ==> r.seconds == setting_read(
            opt_str(setting),
            d,
        ) && r.fell_back == unreadable(opt_str(setting)),
{
    let raw = match setting {
        Some(s) => s,
        None => default,
    };
    choose_trigger(read_clock(raw), read_clock(default))
}

/// The time of the morning digest: half past seven, unless the setting says otherwise.
pub fn morning_trigger(setting: Option<&str>) -> (r: Trigger)
    ensures
        r.seconds == setting_read(opt_str(setting), 27_000),
        r.seconds matches Some(t) && t < 86_400,
        r.fell_back == unreadable(opt_str(setting)),
{
    proof {
        reveal_strlit("07:30");
    }
    parse_trigger_time(setting, "07:30")
}

/// The time of the evening digest: half past seven, unless the setting says otherwise.
pub fn evening_trigger(setting: Option<&str>) -> (r: Trigger)
    ensures
        r.seconds == setting_read(opt_str(setting), 70_200),
        r.seconds matches Some(t) && t < 86_400,
        r.fell_back == unreadable(opt_str(setting)),
{
    proof {
        reveal_strlit("19:30");
    }
    parse_trigger_time(setting, "19:30")
}

/// The digit with value `d`.
pub open spec fn digit_of(d: int) -> char {
    ('0' as u32 + d) as char
}

/// A time of the day as it is written: hours and minutes, two digits each.
pub open spec fn clock_written(hour: int, minute: int) -> Seq<char> {
    seq![
        digit_of(hour / 10),
        digit_of(hour % 10),
        ':',
        digit_of(minute / 10),
        digit_of(minute % 10),
    ]
}

/// A time of the day is read as the seconds that have passed since midnight.
pub proof fn clock_is_read(hour: int, minute: int)
    requires
        0 <= hour < 24,
        0 <= minute < 60,
    ensures
        hours_and_minutes(clock_written(hour, minute)) == Some((hour * 3600 + minute * 60) as u32),
{
    let s = clock_written(hour, minute);
    assert(s.len() == 5);
    assert(digit_value(s[0]) == hour / 10);
    assert(digit_value(s[1]) == hour % 10);
    assert(digit_value(s[3]) == minute / 10);
    assert(digit_value(s[4]) == minute % 10);
}

/// A setting that is a time of the day is taken; where there is none, or none that can be read, the
/// usual time stands.
pub proof fn set_time_is_taken(setting: Option<Seq<char>>, default: u32)
    ensures
        setting is None ==> setting_read(setting, default) == Some(default) && !unreadable(setting),
        setting matches Some(s) ==> (hours_and_minutes(s) matches Some(t) ==> setting_read(
            setting,
            default,
        ) == Some(t) && !unreadable(setting)),
        unreadable(setting) ==> setting_read(setting, default) == Some(default),
{
}

} // verus!
