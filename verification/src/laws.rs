//! Laws of the view-model builder, stated over the snapshot model that
//! `build_view_model`'s contract pins its result to.
use vstd::prelude::*;
use crate::dates::LocalDate;
use crate::errors::DataContractError;
use crate::model::spec_snapshot_valid;
use crate::model::Location;
use crate::model::WeatherSnapshot;
use crate::model::WeatherSnapshotModel;
use crate::view_model::spec_contract_error;
use crate::view_model::spec_next_day;
use crate::view_model::spec_view_model;

verus! {

/// For every snapshot with at least four forecast days and at least one
/// precipitation sample (and no empty condition list), the view model's
/// next-day list has exactly three entries, and they are the second, third
/// and fourth forecast days transformed, in order.
pub proof fn lemma_next_days_from_daily(
    s: WeatherSnapshotModel,
    city: Seq<char>,
    date: LocalDate,
    units: Seq<char>,
)
    requires
        spec_snapshot_valid(s),
    ensures
        spec_view_model(s, city, date, units).next_days.len() == 3,
        forall|i: int|
            0 <= i < 3 ==> spec_view_model(s, city, date, units).next_days[i] == spec_next_day(
                s.daily[i + 1],
            ),
{
}

/// A snapshot with fewer than four forecast days is rejected as having too
/// few daily entries; it never satisfies the snapshot invariant, so the
/// builder never reaches an out-of-range index.
pub proof fn lemma_short_daily_rejected(s: WeatherSnapshotModel)
    requires
        s.daily.len() < 4,
    ensures
        !spec_snapshot_valid(s),
        spec_contract_error(s) == DataContractError::TooFewDailyEntries,
{
}

/// The builder is a pure function of its inputs: two snapshots, locations and
/// unit tokens with equal models determine equal view models, and the one is
/// accepted exactly when the other is.
pub proof fn lemma_build_deterministic(
    s1: WeatherSnapshot,
    s2: WeatherSnapshot,
    l1: Location,
    l2: Location,
    date: LocalDate,
    u1: Seq<char>,
    u2: Seq<char>,
)
    requires
        s1@ == s2@,
        l1@ == l2@,
        u1 == u2,
    ensures
        spec_view_model(s1@, l1@.city, date, u1) == spec_view_model(s2@, l2@.city, date, u2),
        spec_snapshot_valid(s1@) == spec_snapshot_valid(s2@),
{
}

} // verus!
