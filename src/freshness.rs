//! Whether the cached descriptor can still be used: it was published less
//! than a day ago and was fetched for the same resolution and market.
use vstd::prelude::*;
use chrono::TimeZone;
use crate::image::ImageObject;
use crate::text::{opt_view, same_optional_text};

verus! {

#[verifier::external_type_specification]
#[verifier::external_body]
pub struct ExNaiveDateTime(chrono::NaiveDateTime);

/// Whether chrono reads text `s` as a date and time in format `fmt`.
pub uninterp spec fn naive_parses(s: Seq<char>, fmt: Seq<char>) -> bool;

/// Relies on `chrono::NaiveDateTime::parse_from_str`: whether it succeeds
/// depends on the text and the format alone.
#[verifier::external_body]
fn parse_naive(s: &str, fmt: &str) -> (r: Option<chrono::NaiveDateTime>)
    ensures
        r is Some == naive_parses(s@, fmt@),
{
    chrono::NaiveDateTime::parse_from_str(s, fmt).ok()
}

/// Relies on `chrono::Local::from_local_datetime` and `DateTime::timestamp`:
/// the instant, in seconds since the Unix epoch, at which the machine's time
/// zone shows wall-clock time `t`; `None` where that time is skipped or
/// shown twice. It depends on the machine, so nothing is stated of it.
#[verifier::external_body]
fn local_instant(t: &chrono::NaiveDateTime) -> (r: Option<i64>) {
    chrono::Local.from_local_datetime(t).single().map(|d| d.timestamp())
}

/// Relies on `chrono::Local::now` and `DateTime::timestamp`: the current
/// instant in seconds since the Unix epoch.
#[verifier::external_body]
fn now_instant() -> (r: i64) {
    chrono::Local::now().timestamp()
}

/// Seconds a published image stays current.
pub open spec fn validity_window() -> int {
    86400
}

/// The format of a descriptor's `fullstartdate`.
pub open spec fn start_format() -> Seq<char> {
    "%Y%m%d%H%M"@
}

/// A start instant `start` is still current at `now`.
pub open spec fn fresh_at(start: Option<int>, now: int) -> bool {
    match start {
        Some(t) => now < t + validity_window(),
        None => false,
    }
}

/// The cached descriptor was fetched for the requested resolution and market,
/// an unset request matching only an unset one.
pub open spec fn same_request(
    cached: ImageObject,
    resolution: Option<String>,
    market: Option<String>,
) -> bool {
    opt_view(cached.resolution) == opt_view(resolution) && opt_view(cached.market) == opt_view(
        market,
    )
}

pub open spec fn opt_int(o: Option<i64>) -> Option<int> {
    match o {
        Some(t) => Some(t as int),
        None => None,
    }
}

/// The cache decision once the start instant is known.
pub open spec fn valid_from(
    start: Option<int>,
    cached: ImageObject,
    resolution: Option<String>,
    market: Option<String>,
    now: int,
) -> bool {
    fresh_at(start, now) && same_request(cached, resolution, market)
}

/// The instant at which the cached image was published, read from its
/// `fullstartdate` as local time; `None` when that text is no date.
pub fn start_instant(cached: &ImageObject) -> (r: Option<i64>)
    ensures
        !naive_parses(cached.fullstartdate@, start_format()) ==> r is None,
{
    match parse_naive(cached.fullstartdate.as_str(), "%Y%m%d%H%M") {
        Some(t) => local_instant(&t),
        None => None,
    }
}

/// Whether `cached`, published at `start`, may be reused at instant `now` for
/// the requested resolution and market.
pub fn is_valid_from(
    start: Option<i64>,
    cached: &ImageObject,
    resolution: &Option<String>,
    market: &Option<String>,
    now: i64,
) -> (r: bool)
    ensures
        r == valid_from(opt_int(start), *cached, *resolution, *market, now as int),
{
    let fresh = match start {
        Some(t) => (now as i128) < (t as i128) + 86400,
        None => false,
    };
    fresh && same_optional_text(&cached.resolution, resolution) && same_optional_text(
        &cached.market,
        market,
    )
}

/// Whether `cached` may be reused at instant `now`: its `fullstartdate`, read
/// as local time, lies less than a day before `now`, and it was fetched for
/// the same resolution and market. An unreadable date is a cache miss.
pub fn is_cache_valid(
    cached: &ImageObject,
    resolution: &Option<String>,
    market: &Option<String>,
    now: i64,
) -> (r: bool)
    ensures
        r ==> same_request(*cached, *resolution, *market),
        r ==> naive_parses(cached.fullstartdate@, start_format()),
{
    let start = start_instant(cached);
    is_valid_from(start, cached, resolution, market, now)
}

/// Whether `cached` may be reused now, by the machine's clock.
pub fn is_cache_fresh(cached: &ImageObject, resolution: &Option<String>, market: &Option<String>) -> (r: bool)
    ensures
        r ==> naive_parses(cached.fullstartdate@, start_format()),
        r ==> same_request(*cached, *resolution, *market),
{
    is_cache_valid(cached, resolution, market, now_instant())
}

/// Within a day of its start a descriptor stays valid, from a full day on it
/// is not, as long as resolution and market are unchanged.
pub proof fn lemma_one_day_window(
    start: int,
    cached: ImageObject,
    resolution: Option<String>,
    market: Option<String>,
    now: int,
)
    requires
        same_request(cached, resolution, market),
    ensures
        valid_from(Some(start), cached, resolution, market, now) <==> now < start + 86400,
        valid_from(Some(start), cached, resolution, market, start + 23 * 3600 + 59 * 60),
        !valid_from(Some(start), cached, resolution, market, start + 24 * 3600 + 60),
{
}

/// A change of market makes the cached descriptor invalid, whatever its date.
pub proof fn lemma_market_change_invalidates(
    start: Option<int>,
    cached: ImageObject,
    resolution: Option<String>,
    market: Option<String>,
    now: int,
)
    requires
        opt_view(cached.market) != opt_view(market),
    ensures
        !valid_from(start, cached, resolution, market, now),
{
}

} // verus!
