//! The central transformation: a snapshot, a location, the local date and a
//! units token become a fully populated view model, or a data-contract error
//! when the snapshot violates its invariant.
use vstd::prelude::*;
use crate::dates::format_date;
use crate::dates::spec_format_date;
use crate::dates::spec_weekday_full;
use crate::dates::spec_weekday_of_date;
use crate::dates::spec_weekday_of_epoch;
use crate::dates::spec_weekday_short;
use crate::dates::weekday_full;
use crate::dates::weekday_of_date;
use crate::dates::weekday_of_epoch;
use crate::dates::weekday_short;
use crate::dates::LocalDate;
use crate::errors::DataContractError;
use crate::icons::icon_for;
use crate::icons::spec_icon_for;
use crate::model::DailyForecastModel;
use crate::model::Location;
use crate::model::NextDayView;
use crate::model::NextDayViewModel;
use crate::model::TemplateContext;
use crate::model::TemplateContextModel;
use crate::model::WeatherSnapshot;
use crate::model::WeatherSnapshotModel;
use crate::model::spec_snapshot_valid;
use crate::strings::i32_to_string;
use crate::strings::spec_i32_string;
use crate::strings::spec_without_quotes;
use crate::strings::strip_quotes;
use crate::units::is_metric;

verus! {

/// The error reported for an invalid snapshot: too few forecast days first,
/// then a missing precipitation sample, then an empty weather-condition list.
pub open spec fn spec_contract_error(s: WeatherSnapshotModel) -> DataContractError {
    if s.daily.len() < 4 {
        DataContractError::TooFewDailyEntries
    } else if s.minutely.len() < 1 {
        DataContractError::NoPrecipitationSamples
    } else {
        DataContractError::NoWeatherConditions
    }
}

/// The view of one forecast day: the weekday name of its timestamp, its
/// rounded day temperature as text, and the canonical icon of its first
/// weather condition.
pub open spec fn spec_next_day(d: DailyForecastModel) -> NextDayViewModel {
    NextDayViewModel {
        day: spec_weekday_full(spec_weekday_of_epoch(d.dt)),
        temp: spec_i32_string(d.temp_day),
        icon: spec_icon_for(d.weather[0].icon),
    }
}

/// The full view model of a valid snapshot: weekday and date of the local
/// date, the city, the rounded current temperature, the first precipitation
/// sample, wind and humidity as provided, the first current condition's
/// description with double quotes removed and its canonical icon, the three
/// days after today transformed in order, and the metric flag.
pub open spec fn spec_view_model(
    s: WeatherSnapshotModel,
    city: Seq<char>,
    date: LocalDate,
    units: Seq<char>,
) -> TemplateContextModel {
    TemplateContextModel {
        day: spec_weekday_full(spec_weekday_of_date(date)),
        day_short: spec_weekday_short(spec_weekday_of_date(date)),
        date: spec_format_date(date),
        city: city,
        temp: spec_i32_string(s.current.temp),
        rain: s.minutely[0],
        wind: s.current.wind,
        humidity: s.current.humidity,
        description: spec_without_quotes(s.current.weather[0].description),
        icon: spec_icon_for(s.current.weather[0].icon),
        next_days: Seq::new(3, |i: int| spec_next_day(s.daily[i + 1])),
        is_metric: units == "metric"@,
    }
}

/// Builds the view model. Succeeds exactly on snapshots that satisfy the
/// snapshot invariant; an invalid snapshot is reported as a data-contract
/// error and nothing is ever indexed out of range. On success the result is
/// the view model determined by the four inputs alone.
#[verifier::loop_isolation(false)]
pub fn build_view_model(
    snapshot: &WeatherSnapshot,
    location: &Location,
    date: &LocalDate,
    units: &str,
) -> (r: Result<TemplateContext, DataContractError>)
    requires
        date.wf(),
    ensures
        r is Ok <==> spec_snapshot_valid(snapshot@),
        r matches Err(e) ==> e == spec_contract_error(snapshot@),
        r matches Ok(ctx) ==> ctx@ == spec_view_model(snapshot@, location@.city, *date, units@),
{
    proof {
        crate::model::lemma_snapshot_model(snapshot);
    }
    if snapshot.daily.len() < 4 {
        return Err(DataContractError::TooFewDailyEntries);
    }
    if snapshot.minutely.len() < 1 {
        return Err(DataContractError::NoPrecipitationSamples);
    }
    if snapshot.current.weather.len() < 1 {
        return Err(DataContractError::NoWeatherConditions);
    }
    let daily_len = snapshot.daily.len();
    let mut k: usize = 0;
    while k < daily_len
        invariant
            daily_len == snapshot.daily@.len(),
            k <= daily_len,
            forall|j: int| 0 <= j < k ==> #[trigger] snapshot@.daily[j].weather.len() >= 1,
        decreases daily_len - k,
    {
        if snapshot.daily[k].weather.len() < 1 {
            proof {
                assert(snapshot@.daily[k as int].weather.len() < 1);
            }
            return Err(DataContractError::NoWeatherConditions);
        }
        k = k + 1;
    }
    let mut next_days: Vec<NextDayView> = Vec::new();
    let mut i: usize = 0;
    while i < 3
        invariant
            snapshot.daily@.len() >= 4,
            spec_snapshot_valid(snapshot@),
            next_days@.len() == i,
            i <= 3,
            forall|j: int|
                0 <= j < i ==> #[trigger] next_days@[j]@ == spec_next_day(snapshot@.daily[j + 1]),
        decreases 3 - i,
    {
        let entry = &snapshot.daily[i + 1];
        proof {
            assert(snapshot@.daily[i + 1].weather.len() >= 1);
            assert(entry.weather@.len() == snapshot@.daily[i + 1].weather.len());
        }
        let wd = weekday_of_epoch(entry.dt);
        let next = NextDayView {
            day: weekday_full(wd).to_owned(),
            temp: i32_to_string(entry.temp_day),
            icon: icon_for(entry.weather[0].icon.as_str()).to_owned(),
        };
        proof {
            assert(next@ =~= spec_next_day(snapshot@.daily[i + 1]));
        }
        next_days.push(next);
        i = i + 1;
    }
    let wd = weekday_of_date(date);
    let ctx = TemplateContext {
        day: weekday_full(wd).to_owned(),
        day_short: weekday_short(wd).to_owned(),
        date: format_date(date),
        city: location.city.clone(),
        temp: i32_to_string(snapshot.current.temp),
        rain: snapshot.minutely[0].clone(),
        wind: snapshot.current.wind.clone(),
        humidity: snapshot.current.humidity.clone(),
        description: strip_quotes(snapshot.current.weather[0].description.as_str()),
        icon: icon_for(snapshot.current.weather[0].icon.as_str()).to_owned(),
        next_days,
        is_metric: is_metric(units),
    };
    proof {
        assert(ctx@.next_days =~= spec_view_model(
            snapshot@,
            location@.city,
            *date,
            units@,
        ).next_days);
        assert(ctx@ =~= spec_view_model(snapshot@, location@.city, *date, units@));
    }
    Ok(ctx)
}

} // verus!
