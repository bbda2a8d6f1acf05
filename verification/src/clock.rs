use vstd::prelude::*;

verus! {

/// Whether `s` has the shape of an RFC 3339 time in UTC as chrono writes
/// it: a date, then `T` and the time of day, then the offset `+00:00`.
pub open spec fn is_utc_rfc3339_text(s: Seq<char>) -> bool {
    &&& s.len() >= 6
    &&& s.subrange(s.len() - 6, s.len() as int) == seq!['+', '0', '0', ':', '0', '0']
    &&& exists|i: int| 0 <= i < s.len() - 6 && #[trigger] s[i] == 'T'
}

#[verifier::external_body]
/// The current time as `chrono::Utc::now().to_rfc3339()` writes it. The
/// time itself depends on the clock and is not claimed; the claim is the
/// shape that chrono's `write_rfc3339` gives every UTC time: the date and
/// the time separated by `T`, and the offset of UTC written `+00:00`.
pub(crate) fn now_rfc3339() -> (t: String)
    ensures
        is_utc_rfc3339_text(t@),
{
    chrono::Utc::now().to_rfc3339()
}

#[verifier::external_body]
/// The current time in milliseconds since the Unix epoch
/// (`chrono::Utc::now().timestamp_millis()`). It depends on the clock, so
/// nothing is claimed of the number.
pub(crate) fn now_millis() -> (ms: i64) {
    chrono::Utc::now().timestamp_millis()
}

} // verus!
