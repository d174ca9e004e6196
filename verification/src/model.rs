//! The data model: the decoded upstream snapshot, the resolved location, and
//! the view model handed to the renderer, together with their mathematical
//! models. Temperatures arrive already rounded to whole degrees and the
//! free-text measurements (wind, humidity, precipitation) arrive already
//! formatted, so every field is a plain value.
use vstd::prelude::*;

verus! {

/// One weather condition entry of the upstream payload: a free-text
/// description and a condition code.
#[derive(Debug)]
pub struct WeatherCondition {
    pub description: String,
    pub icon: String,
}

/// The mathematical model of a weather condition entry.
#[verifier::ext_equal]
pub struct WeatherConditionModel {
    pub description: Seq<char>,
    pub icon: Seq<char>,
}

impl View for WeatherCondition {
    type V = WeatherConditionModel;

    open spec fn view(&self) -> WeatherConditionModel {
        WeatherConditionModel { description: self.description@, icon: self.icon@ }
    }
}

impl DeepView for WeatherCondition {
    type V = WeatherConditionModel;

    open spec fn deep_view(&self) -> WeatherConditionModel {
        self.view()
    }
}

/// The current conditions of the upstream payload. The temperature is rounded
/// to whole degrees; wind speed and humidity are kept as the formatted text
/// they are displayed as.
#[derive(Debug)]
pub struct CurrentConditions {
    pub temp: i32,
    pub wind: String,
    pub humidity: String,
    pub weather: Vec<WeatherCondition>,
}

/// The mathematical model of the current conditions.
#[verifier::ext_equal]
pub struct CurrentConditionsModel {
    pub temp: int,
    pub wind: Seq<char>,
    pub humidity: Seq<char>,
    pub weather: Seq<WeatherConditionModel>,
}

impl View for CurrentConditions {
    type V = CurrentConditionsModel;

    open spec fn view(&self) -> CurrentConditionsModel {
        CurrentConditionsModel {
            temp: self.temp as int,
            wind: self.wind@,
            humidity: self.humidity@,
            weather: self.weather.deep_view(),
        }
    }
}

/// One day of the forecast: its timestamp in epoch seconds, its day
/// temperature rounded to whole degrees, and its weather conditions.
#[derive(Debug)]
pub struct DailyForecast {
    pub dt: u64,
    pub temp_day: i32,
    pub weather: Vec<WeatherCondition>,
}

/// The mathematical model of one forecast day.
#[verifier::ext_equal]
pub struct DailyForecastModel {
    pub dt: u64,
    pub temp_day: int,
    pub weather: Seq<WeatherConditionModel>,
}

impl View for DailyForecast {
    type V = DailyForecastModel;

    open spec fn view(&self) -> DailyForecastModel {
        DailyForecastModel {
            dt: self.dt,
            temp_day: self.temp_day as int,
            weather: self.weather.deep_view(),
        }
    }
}

impl DeepView for DailyForecast {
    type V = DailyForecastModel;

    open spec fn deep_view(&self) -> DailyForecastModel {
        self.view()
    }
}

/// A decoded upstream weather payload: current conditions, the daily
/// forecast, and per-minute precipitation samples kept as formatted text.
#[derive(Debug)]
pub struct WeatherSnapshot {
    pub current: CurrentConditions,
    pub daily: Vec<DailyForecast>,
    pub minutely: Vec<String>,
}

/// The mathematical model of a snapshot.
#[verifier::ext_equal]
pub struct WeatherSnapshotModel {
    pub current: CurrentConditionsModel,
    pub daily: Seq<DailyForecastModel>,
    pub minutely: Seq<Seq<char>>,
}

impl View for WeatherSnapshot {
    type V = WeatherSnapshotModel;

    open spec fn view(&self) -> WeatherSnapshotModel {
        WeatherSnapshotModel {
            current: self.current@,
            daily: self.daily.deep_view(),
            minutely: self.minutely.deep_view(),
        }
    }
}

/// The snapshot invariant the builder demands: at least four forecast days
/// (today and the next three), at least one precipitation sample, and no
/// empty weather-condition list anywhere in the payload.
pub open spec fn spec_snapshot_valid(s: WeatherSnapshotModel) -> bool {
    &&& s.daily.len() >= 4
    &&& s.minutely.len() >= 1
    &&& s.current.weather.len() >= 1
    &&& forall|i: int| 0 <= i < s.daily.len() ==> #[trigger] s.daily[i].weather.len() >= 1
}

/// Connects a snapshot's model to the views of its parts: lengths agree and
/// every element's model is the element's view.
pub proof fn lemma_snapshot_model(s: &WeatherSnapshot)
    ensures
        s@.daily.len() == s.daily@.len(),
        s@.minutely.len() == s.minutely@.len(),
        s@.current.weather.len() == s.current.weather@.len(),
        forall|j: int| 0 <= j < s.daily@.len() ==> #[trigger] s@.daily[j] == s.daily@[j]@,
        forall|j: int|
            0 <= j < s.minutely@.len() ==> #[trigger] s@.minutely[j] == s.minutely@[j]@,
        forall|j: int|
            0 <= j < s.current.weather@.len() ==> #[trigger] s@.current.weather[j]
                == s.current.weather@[j]@,
        forall|j: int|
            0 <= j < s.daily@.len() ==> #[trigger] s@.daily[j].weather.len()
                == s.daily@[j].weather@.len(),
        forall|j: int, w: int|
            0 <= j < s.daily@.len() && 0 <= w < s.daily@[j].weather@.len()
                ==> #[trigger] s@.daily[j].weather[w] == s.daily@[j].weather@[w]@,
{
    assert forall|j: int| 0 <= j < s.daily@.len() implies #[trigger] s@.daily[j]
        == s.daily@[j]@ by {
        assert(s@.daily[j] == s.daily@[j].deep_view());
    }
    assert forall|j: int, w: int|
        0 <= j < s.daily@.len() && 0 <= w < s.daily@[j].weather@.len()
        implies #[trigger] s@.daily[j].weather[w] == s.daily@[j].weather@[w]@ by {
        assert(s@.daily[j].weather[w] == s.daily@[j].weather@[w].deep_view());
    }
}

/// A resolved client location. The coordinates are kept as the decimal text
/// they are forwarded as; a latitude whose text starts with a minus sign lies
/// on the Southern hemisphere.
#[derive(Debug)]
pub struct Location {
    pub city: String,
    pub country: String,
    pub latitude: String,
    pub longitude: String,
}

/// The mathematical model of a location.
#[verifier::ext_equal]
pub struct LocationModel {
    pub city: Seq<char>,
    pub country: Seq<char>,
    pub latitude: Seq<char>,
    pub longitude: Seq<char>,
}

impl View for Location {
    type V = LocationModel;

    open spec fn view(&self) -> LocationModel {
        LocationModel {
            city: self.city@,
            country: self.country@,
            latitude: self.latitude@,
            longitude: self.longitude@,
        }
    }
}

/// The view of one of the next three days: weekday name, rounded day
/// temperature as text, and canonical icon name.
#[derive(Debug)]
pub struct NextDayView {
    pub day: String,
    pub temp: String,
    pub icon: String,
}

/// The mathematical model of a next-day view.
#[verifier::ext_equal]
pub struct NextDayViewModel {
    pub day: Seq<char>,
    pub temp: Seq<char>,
    pub icon: Seq<char>,
}

impl View for NextDayView {
    type V = NextDayViewModel;

    open spec fn view(&self) -> NextDayViewModel {
        NextDayViewModel { day: self.day@, temp: self.temp@, icon: self.icon@ }
    }
}

impl DeepView for NextDayView {
    type V = NextDayViewModel;

    open spec fn deep_view(&self) -> NextDayViewModel {
        self.view()
    }
}

/// The full view model handed to the renderer: every display value of the
/// page, fully resolved.
#[derive(Debug)]
pub struct TemplateContext {
    pub day: String,
    pub day_short: String,
    pub date: String,
    pub city: String,
    pub temp: String,
    pub rain: String,
    pub wind: String,
    pub humidity: String,
    pub description: String,
    pub icon: String,
    pub next_days: Vec<NextDayView>,
    pub is_metric: bool,
}

/// The mathematical model of the view model.
#[verifier::ext_equal]
pub struct TemplateContextModel {
    pub day: Seq<char>,
    pub day_short: Seq<char>,
    pub date: Seq<char>,
    pub city: Seq<char>,
    pub temp: Seq<char>,
    pub rain: Seq<char>,
    pub wind: Seq<char>,
    pub humidity: Seq<char>,
    pub description: Seq<char>,
    pub icon: Seq<char>,
    pub next_days: Seq<NextDayViewModel>,
    pub is_metric: bool,
}

impl View for TemplateContext {
    type V = TemplateContextModel;

    open spec fn view(&self) -> TemplateContextModel {
        TemplateContextModel {
            day: self.day@,
            day_short: self.day_short@,
            date: self.date@,
            city: self.city@,
            temp: self.temp@,
            rain: self.rain@,
            wind: self.wind@,
            humidity: self.humidity@,
            description: self.description@,
            icon: self.icon@,
            next_days: self.next_days.deep_view(),
            is_metric: self.is_metric,
        }
    }
}

} // verus!
