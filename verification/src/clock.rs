//! Reading the clock and rendering instants, both through `chrono`.

use crate::domain::Timestamp;
use vstd::prelude::*;

verus! {

/// The text `chrono` displays for the UTC instant that lies `unix_nanos`
/// nanoseconds after the Unix epoch, such as `2015-05-15 00:00:00 UTC`. It
/// depends on the number alone, not on a locale or a time zone setting.
pub uninterp spec fn utc_display(unix_nanos: i64) -> Seq<char>;

/// Builds the instant with `chrono::DateTime::from_timestamp_nanos`, which
/// accepts every `i64`, and renders it with the `Display` impl of
/// `DateTime<Utc>`. Trusted: the result is the value named [`utc_display`].
#[verifier::external_body]
fn utc_text(unix_nanos: i64) -> (r: String)
    ensures
        r@ == utc_display(unix_nanos),
{
    chrono::DateTime::from_timestamp_nanos(unix_nanos).to_string()
}

/// Reads the clock with `chrono::Utc::now` and converts the instant with
/// `DateTime::timestamp_nanos_opt`, which gives `None` for an instant outside
/// the years 1677 to 2262. Nothing is promised of the result. `Utc::now`
/// panics if the system clock is set before the Unix epoch.
#[verifier::external_body]
fn utc_now_nanos() -> (r: Option<i64>)
{
    chrono::Utc::now().timestamp_nanos_opt()
}

impl Timestamp {
    /// The text of this instant as it enters an audit digest.
    pub open spec fn display(self) -> Seq<char> {
        utc_display(self.unix_nanos)
    }

    /// Renders the instant.
    pub fn text(&self) -> (r: String)
        ensures
            r@ == self.display(),
    {
        utc_text(self.unix_nanos)
    }

    /// The current instant, or `None` if it cannot be counted in
    /// nanoseconds within an `i64`.
    pub fn now() -> (r: Option<Timestamp>)
    {
        match utc_now_nanos() {
            Some(n) => Some(Timestamp { unix_nanos: n }),
            None => None,
        }
    }
}

} // verus!
