//! A verified core for an edge-deployed weather page: routing, units
//! resolution, hemisphere-aware season selection, icon mapping, date and
//! weekday formatting, and the construction of the template context from a
//! decoded upstream snapshot.

mod client;
mod dates;
mod errors;
mod icons;
mod laws;
mod model;
mod router;
mod season;
mod strings;
mod units;
mod view_model;

pub use client::build_upstream_url;
pub use client::resolve_api_key;
pub use client::spec_upstream_url;
pub use dates::format_date;
pub use dates::month_name;
pub use dates::spec_format_date;
pub use dates::spec_month_name;
pub use dates::spec_weekday_full;
pub use dates::spec_weekday_of_date;
pub use dates::spec_weekday_of_epoch;
pub use dates::spec_weekday_short;
pub use dates::weekday_full;
pub use dates::weekday_of_date;
pub use dates::weekday_of_epoch;
pub use dates::weekday_short;
pub use dates::LocalDate;
pub use errors::config_error_status;
pub use errors::data_contract_error_status;
pub use errors::location_error_status;
pub use errors::request_error_body;
pub use errors::request_error_status;
pub use errors::upstream_error_status;
pub use errors::ConfigError;
pub use errors::DataContractError;
pub use errors::LocationError;
pub use errors::RequestError;
pub use errors::UpstreamError;
pub use icons::icon_for;
pub use icons::spec_icon_for;
pub use laws::lemma_build_deterministic;
pub use laws::lemma_next_days_from_daily;
pub use laws::lemma_short_daily_rejected;
pub use model::spec_snapshot_valid;
pub use model::CurrentConditions;
pub use model::CurrentConditionsModel;
pub use model::DailyForecast;
pub use model::DailyForecastModel;
pub use model::Location;
pub use model::LocationModel;
pub use model::NextDayView;
pub use model::NextDayViewModel;
pub use model::TemplateContext;
pub use model::TemplateContextModel;
pub use model::WeatherCondition;
pub use model::WeatherConditionModel;
pub use model::WeatherSnapshot;
pub use model::WeatherSnapshotModel;
pub use router::route;
pub use router::route_content_type;
pub use router::route_status;
pub use router::spec_route;
pub use router::spec_route_status;
pub use router::RouteOutcome;
pub use season::background_image_name;
pub use season::is_southern_hemisphere;
pub use season::season_for;
pub use season::spec_northern_season;
pub use season::spec_opposite_season;
pub use season::spec_season_for;
pub use season::Season;
pub use strings::i32_to_string;
pub use strings::spec_i32_string;
pub use strings::spec_u32_digits;
pub use strings::spec_without_quotes;
pub use strings::str_eq;
pub use strings::strip_quotes;
pub use strings::u32_to_string;
pub use units::is_metric;
pub use units::resolve_units;
pub use view_model::build_view_model;
pub use view_model::spec_contract_error;
pub use view_model::spec_next_day;
pub use view_model::spec_view_model;
