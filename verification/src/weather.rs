//! The one weather decision the light core makes itself: whether the
//! current wall-clock time counts as night.
//!
//! Weather acquisition, geocoding and the temperature-to-color table are
//! outside collaborators; each hands this library plain values. Times
//! arrive here as minutes of the day (hours and minutes only), because
//! the forecast provider reports future days sequentially and only the
//! time-of-day components are comparable.

use vstd::prelude::*;

verus! {

/// Whether `now` falls outside the daylight span. With the usual
/// ordering (sunrise before sunset) night is before sunrise or after
/// sunset; when the reported times wrap around midnight (sunrise after
/// sunset, as a timezone shift can produce), night is the span strictly
/// between sunset and sunrise. Missing times count as day.
pub open spec fn is_night_spec(
    now_min: u16,
    sunrise_min: Option<u16>,
    sunset_min: Option<u16>,
) -> bool {
    match (sunrise_min, sunset_min) {
        (Option::Some(sr), Option::Some(ss)) => if sr < ss {
            now_min < sr || now_min > ss
        } else {
            now_min < sr && now_min > ss
        },
        _ => false,
    }
}

/// Decides night mode from the time-of-day components of now, sunrise
/// and sunset, each as minutes since midnight.
pub fn check_is_night(now_min: u16, sunrise_min: Option<u16>, sunset_min: Option<u16>) -> (night:
    bool)
    ensures
        night == is_night_spec(now_min, sunrise_min, sunset_min),
{
    match (sunrise_min, sunset_min) {
        (Some(sr), Some(ss)) => {
            if sr < ss {
                now_min < sr || now_min > ss
            } else {
                now_min < sr && now_min > ss
            }
        },
        _ => false,
    }
}

} // verus!
