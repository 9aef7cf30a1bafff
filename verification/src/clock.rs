//! Readings of the system clock, through `chrono`.

use vstd::prelude::*;

verus! {

/// A date and time without a time zone.
#[verifier::external_type_specification]
#[verifier::external_body]
pub struct ExNaiveDateTime(chrono::NaiveDateTime);

/// A decimal digit.
pub open spec fn is_digit(c: char) -> bool {
    '0' <= c && c <= '9'
}

/// Every character is a decimal digit.
pub open spec fn all_digits(s: Seq<char>) -> bool {
    forall|i: int| 0 <= i < s.len() ==> #[trigger] is_digit(s[i])
}

/// `s` is a date and a time separated by the space at `k`: the year (four
/// digits, or a sign and four or more digits outside 0 to 9999), `-MM-DD`,
/// then `HH:MM:SS`, optionally followed by `.` and 3, 6 or 9 digits of
/// fraction.
pub open spec fn splits_at(s: Seq<char>, k: int) -> bool {
    let y = k - 6;
    let rest = s.subrange(k + 9, s.len() as int);
    &&& 4 <= y
    &&& k + 9 <= s.len()
    &&& (y == 4 && all_digits(s.subrange(0, 4))) || (5 <= y && (s[0] == '+' || s[0] == '-')
        && all_digits(s.subrange(1, y)))
    &&& s[y] == '-' && is_digit(s[y + 1]) && is_digit(s[y + 2])
    &&& s[y + 3] == '-' && is_digit(s[y + 4]) && is_digit(s[y + 5])
    &&& s[k] == ' '
    &&& is_digit(s[k + 1]) && is_digit(s[k + 2]) && s[k + 3] == ':'
    &&& is_digit(s[k + 4]) && is_digit(s[k + 5]) && s[k + 6] == ':'
    &&& is_digit(s[k + 7]) && is_digit(s[k + 8])
    &&& rest.len() == 0 || (rest[0] == '.' && (rest.len() == 4 || rest.len() == 7 || rest.len()
        == 10) && all_digits(rest.subrange(1, rest.len() as int)))
}

/// `s` is how a `NaiveDateTime` displays: `YYYY-MM-DD HH:MM:SS[.fff]`.
pub open spec fn is_timestamp_text(s: Seq<char>) -> bool {
    exists|k: int| #[trigger] splits_at(s, k)
}

/// Nanoseconds in a second.
pub const NANOS_PER_SEC: u32 = 1_000_000_000;

/// The instants chrono's calendar holds comfortably: within 8 * 10^12
/// seconds (about 253,000 years) of 1970 either way.
pub open spec fn in_calendar(secs: i64) -> bool {
    -8_000_000_000_000 < secs < 8_000_000_000_000
}

/// Where the clock stands against the Unix epoch: `Ok((s, n))` that many
/// seconds and nanoseconds after it, `Err((s, n))` that many before it.
pub type EpochOffset = Result<(u64, u32), (u64, u32)>;

/// The offset in nanoseconds, negative before the epoch.
pub open spec fn offset_nanos(offset: EpochOffset) -> int {
    match offset {
        Ok((s, n)) => s * 1_000_000_000 + n,
        Err((s, n)) => -(s * 1_000_000_000 + n),
    }
}

/// Calls `SystemTime::now().duration_since(UNIX_EPOCH)`: the clock against
/// the epoch, after it (`Ok`) or before it (`Err`, the error's duration), as
/// whole seconds and the nanoseconds beyond. The time is that of the call;
/// claimed of every reading, as `Duration::subsec_nanos` documents: the
/// nanoseconds are below one billion.
#[verifier::external_body]
pub(crate) fn since_epoch() -> (offset: EpochOffset)
    ensures
        offset_well_formed(offset),
{
    match std::time::SystemTime::now().duration_since(std::time::UNIX_EPOCH) {
        Ok(d) => Ok((d.as_secs(), d.subsec_nanos())),
        Err(e) => Err((e.duration().as_secs(), e.duration().subsec_nanos())),
    }
}

/// The offset's nanoseconds are below one billion, as a reading's are.
pub open spec fn offset_well_formed(offset: EpochOffset) -> bool {
    match offset {
        Ok((_, n)) => n < NANOS_PER_SEC,
        Err((_, n)) => n < NANOS_PER_SEC,
    }
}

/// The offset as a Unix timestamp: the whole seconds counted down from the
/// instant (floor division) and the nanoseconds past them, where the offset
/// is well formed and the seconds lie within `-i64::MAX ..= i64::MAX`.
pub open spec fn timestamp_of(offset: EpochOffset) -> Option<(i64, u32)> {
    let total = offset_nanos(offset);
    let secs = total / 1_000_000_000;
    let nanos = total % 1_000_000_000;
    if offset_well_formed(offset) && -i64::MAX <= secs <= i64::MAX {
        Some((secs as i64, nanos as u32))
    } else {
        None
    }
}

/// The offset as a Unix timestamp (see `timestamp_of`).
pub fn epoch_seconds(offset: EpochOffset) -> (res: Option<(i64, u32)>)
    ensures
        res == timestamp_of(offset),
{
    match offset {
        Ok((s, n)) => {
            if s > i64::MAX as u64 || n >= NANOS_PER_SEC {
                None
            } else {
                Some((s as i64, n))
            }
        },
        Err((s, n)) => {
            if n >= NANOS_PER_SEC {
                None
            } else if n == 0 {
                if s > i64::MAX as u64 {
                    None
                } else {
                    Some((-(s as i64), 0))
                }
            } else if s >= i64::MAX as u64 {
                None
            } else {
                Some((-(s as i64) - 1, NANOS_PER_SEC - n))
            }
        },
    }
}

/// What `chrono::DateTime::from_timestamp(secs, nanos)` rendered as
/// `naive_utc().to_string()` gives: the text, or `None` where
/// `from_timestamp` refuses the instant.
pub uninterp spec fn utc_text(secs: i64, nanos: u32) -> Option<Seq<char>>;

/// The view of an optional text.
pub open spec fn text_view(text: Option<String>) -> Option<Seq<char>> {
    match text {
        Some(t) => Some(t@),
        None => None,
    }
}

/// Calls `chrono::DateTime::from_timestamp(secs, nanos)` and renders its
/// `naive_utc()` with `to_string`. Claimed: the outcome is `utc_text`;
/// `from_timestamp` refuses (`None`) only instants outside its calendar, so
/// it accepts every second within `in_calendar` with nanoseconds below one
/// billion; the text has the form `NaiveDateTime`'s `Display` writes.
#[verifier::external_body]
fn utc_text_at(secs: i64, nanos: u32) -> (text: Option<String>)
    ensures
        text_view(text) == utc_text(secs, nanos),
        in_calendar(secs) && nanos < NANOS_PER_SEC ==> text is Some,
        text matches Some(t) ==> is_timestamp_text(t@),
{
    match chrono::DateTime::from_timestamp(secs, nanos) {
        Some(t) => Some(t.naive_utc().to_string()),
        None => None,
    }
}

/// Calls `chrono::DateTime::from_timestamp(secs, nanos)` and then
/// `with_timezone(&chrono::Local)` and `naive_local()`. The local offset
/// depends on the machine's time zone, so nothing is claimed of the value;
/// claimed: there is one for every instant within `in_calendar` with
/// nanoseconds below one billion. chrono looks the offset up with `expect`
/// and adds it in `naive_local`; the zone it uses is one it has parsed and
/// checked, or UTC where it cannot, and within `in_calendar` (well inside
/// chrono's own range of about 262,000 years, leaving room for any zone's
/// offset) both succeed, which is why the instant is required to lie there.
#[verifier::external_body]
fn local_at(secs: i64, nanos: u32) -> (now: Option<chrono::NaiveDateTime>)
    requires
        in_calendar(secs),
    ensures
        nanos < NANOS_PER_SEC ==> now is Some,
{
    match chrono::DateTime::from_timestamp(secs, nanos) {
        Some(t) => Some(t.with_timezone(&chrono::Local).naive_local()),
        None => None,
    }
}

/// The UTC time of a clock reading as `YYYY-MM-DD HH:MM:SS[.fff]`: chrono's
/// rendering of its timestamp, present for every reading within
/// `in_calendar`.
pub fn utc_text_of(offset: EpochOffset) -> (text: Option<String>)
    ensures
        match timestamp_of(offset) {
            Some((secs, nanos)) => text_view(text) == utc_text(secs, nanos),
            None => text is None,
        },
        timestamp_of(offset) matches Some((secs, _)) && in_calendar(secs) ==> text is Some,
        text matches Some(t) ==> is_timestamp_text(t@),
{
    match epoch_seconds(offset) {
        Some((secs, nanos)) => utc_text_at(secs, nanos),
        None => None,
    }
}

/// The local time of a clock reading: present exactly for the readings
/// whose timestamp lies within `in_calendar`.
pub fn local_at_offset(offset: EpochOffset) -> (now: Option<chrono::NaiveDateTime>)
    ensures
        now is Some <==> (timestamp_of(offset) matches Some((secs, _)) && in_calendar(secs)),
{
    match epoch_seconds(offset) {
        Some((secs, nanos)) => {
            if -8_000_000_000_000 < secs && secs < 8_000_000_000_000 {
                local_at(secs, nanos)
            } else {
                None
            }
        },
        None => None,
    }
}

} // verus!
