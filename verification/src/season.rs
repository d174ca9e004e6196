//! Hemisphere-aware season selection: a fixed month-to-season table for the
//! Northern hemisphere, inverted when the latitude is negative.
use vstd::prelude::*;
use vstd::string::StrSliceExecFns;

verus! {

/// A meteorological season. Derived from the calendar month and the sign of
/// the latitude; used only to pick one of four background images.
#[derive(Clone, Copy, PartialEq, Eq, Structural, Debug)]
pub enum Season {
    Spring,
    Summer,
    Autumn,
    Winter,
}

/// The season a given month falls in on the Northern hemisphere:
/// December through February are Winter, March through May Spring,
/// June through August Summer, September through November Autumn.
pub open spec fn spec_northern_season(month: u8) -> Season {
    if month == 12 || month == 1 || month == 2 {
        Season::Winter
    } else if 3 <= month <= 5 {
        Season::Spring
    } else if 6 <= month <= 8 {
        Season::Summer
    } else {
        Season::Autumn
    }
}

/// The diametrically opposite season: Winter and Summer swap, Spring and
/// Autumn swap.
pub open spec fn spec_opposite_season(s: Season) -> Season {
    match s {
        Season::Spring => Season::Autumn,
        Season::Summer => Season::Winter,
        Season::Autumn => Season::Spring,
        Season::Winter => Season::Summer,
    }
}

/// The season for a calendar month at a location: the Northern-hemisphere
/// season, inverted when the location lies on the Southern hemisphere.
pub open spec fn spec_season_for(month: u8, southern: bool) -> Season {
    if southern {
        spec_opposite_season(spec_northern_season(month))
    } else {
        spec_northern_season(month)
    }
}

/// Selects the season for a calendar month (1 through 12) and a hemisphere;
/// `southern` holds exactly when the latitude is negative.
pub fn season_for(month: u8, southern: bool) -> (r: Season)
    requires
        1 <= month <= 12,
    ensures
        r == spec_season_for(month, southern),
{
    let northern = if month == 12 || month <= 2 {
        Season::Winter
    } else if month <= 5 {
        Season::Spring
    } else if month <= 8 {
        Season::Summer
    } else {
        Season::Autumn
    };
    if southern {
        match northern {
            Season::Spring => Season::Autumn,
            Season::Summer => Season::Winter,
            Season::Autumn => Season::Spring,
            Season::Winter => Season::Summer,
        }
    } else {
        northern
    }
}

/// Whether a latitude, given as the decimal text it was formatted to, lies on
/// the Southern hemisphere: exactly when its text carries a leading minus
/// sign.
pub fn is_southern_hemisphere(latitude: &str) -> (r: bool)
    ensures
        r == (latitude@.len() > 0 && latitude@[0] == '-'),
{
    let len = latitude.unicode_len();
    if len == 0 {
        false
    } else {
        latitude.get_char(0) == '-'
    }
}

/// The file name of the embedded background image that belongs to a season.
pub fn background_image_name(season: Season) -> (r: &'static str)
    ensures
        season == Season::Spring ==> r@ == "spring.jpg"@,
        season == Season::Summer ==> r@ == "summer.jpg"@,
        season == Season::Autumn ==> r@ == "autumn.jpg"@,
        season == Season::Winter ==> r@ == "winter.jpg"@,
{
    match season {
        Season::Spring => "spring.jpg",
        Season::Summer => "summer.jpg",
        Season::Autumn => "autumn.jpg",
        Season::Winter => "winter.jpg",
    }
}

} // verus!
