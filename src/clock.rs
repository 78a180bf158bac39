use vstd::prelude::*;

verus! {

/// Largest number of seconds since the Unix epoch whose UTC date still has a
/// four-digit year (9999-12-31T23:59:59).
pub const MAX_FOUR_DIGIT_YEAR_SECS: u64 = 253402300799;

pub open spec fn is_ascii_digit(c: char) -> bool {
    '0' <= c && c <= '9'
}

/// `s` is an RFC 3339 UTC timestamp as chrono writes it for a four-digit
/// year: `YYYY-MM-DDTHH:MM:SS`, then no fraction or one of 3, 6 or 9 digits
/// after a `.`, then the offset `+00:00`.
pub open spec fn is_rfc3339_utc(s: Seq<char>) -> bool {
    let n = s.len();
    &&& n == 25 || n == 29 || n == 32 || n == 35
    &&& forall|i: int|
        0 <= i < 19 && i != 4 && i != 7 && i != 10 && i != 13 && i != 16 ==> is_ascii_digit(#[trigger] s[i])
    &&& s[4] == '-' && s[7] == '-' && s[10] == 'T' && s[13] == ':' && s[16] == ':'
    &&& n > 25 ==> s[19] == '.'
    &&& forall|i: int| 20 <= i < n - 6 ==> is_ascii_digit(#[trigger] s[i])
    &&& s[n - 6] == '+' && s[n - 5] == '0' && s[n - 4] == '0' && s[n - 3] == ':' && s[n - 2] == '0'
        && s[n - 1] == '0'
}

/// The text chrono writes for the UTC instant `secs` seconds and `nanos`
/// nanoseconds after the Unix epoch.
pub uninterp spec fn rfc3339_of(secs: i64, nanos: u32) -> Seq<char>;

/// Relies on `std::time::SystemTime::now` and `duration_since(UNIX_EPOCH)`:
/// the current time as whole seconds and the nanoseconds below one second,
/// or `None` when the clock reads earlier than the epoch.
#[verifier::external_body]
pub(crate) fn unix_now() -> (r: Option<(u64, u32)>)
    ensures
        r matches Some((_, nanos)) ==> nanos < 1_000_000_000,
{
    match std::time::SystemTime::now().duration_since(std::time::UNIX_EPOCH) {
        Ok(d) => Some((d.as_secs(), d.subsec_nanos())),
        Err(_) => None,
    }
}

/// Relies on chrono's `DateTime::from_timestamp`, which gives `None` only for
/// an out-of-range instant or nanosecond (neither is admitted here), and `DateTime::<Utc>::to_rfc3339`, whose
/// `write_rfc3339` writes a year in 0..=9999 as four digits, the fraction with
/// 0, 3, 6 or 9 digits, and a zero offset as `+00:00`.
#[verifier::external_body]
pub(crate) fn rfc3339_utc(secs: i64, nanos: u32) -> (r: Option<String>)
    requires
        0 <= secs <= MAX_FOUR_DIGIT_YEAR_SECS,
        nanos < 1_000_000_000,
    ensures
        r is Some,
        r matches Some(t) ==> t@ == rfc3339_of(secs, nanos) && is_rfc3339_utc(t@),
{
    match chrono::DateTime::from_timestamp(secs, nanos) {
        Some(dt) => Some(dt.to_rfc3339()),
        None => None,
    }
}

/// The RFC 3339 UTC text of the instant `secs` seconds and `nanos`
/// nanoseconds after the Unix epoch, for every instant whose year has four
/// digits; `None` past the end of year 9999.
pub fn rfc3339_from_unix(secs: u64, nanos: u32) -> (r: Option<String>)
    requires
        nanos < 1_000_000_000,
    ensures
        (r is Some) == (secs <= MAX_FOUR_DIGIT_YEAR_SECS),
        r matches Some(t) ==> t@ == rfc3339_of(secs as i64, nanos) && is_rfc3339_utc(t@),
{
    if secs <= MAX_FOUR_DIGIT_YEAR_SECS {
        rfc3339_utc(secs as i64, nanos)
    } else {
        None
    }
}

/// The current UTC instant in RFC 3339 form, or `None` when the system clock
/// reads before 1970 or after the year 9999.
pub fn timestamp_now() -> (r: Option<String>)
    ensures
        r matches Some(t) ==> is_rfc3339_utc(t@) && exists|secs: i64, nanos: u32|
            t@ == #[trigger] rfc3339_of(secs, nanos),
{
    match unix_now() {
        Some((secs, nanos)) => rfc3339_from_unix(secs, nanos),
        None => None,
    }
}

} // verus!
