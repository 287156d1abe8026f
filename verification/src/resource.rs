//! The resources of the API: where each lives and which operations it
//! offers.

use vstd::prelude::*;
use crate::query::QueryKind;

verus! {

/// One category of data that the API exposes.
#[derive(Clone, Copy, Debug, PartialEq, Eq, Hash, Structural)]
pub enum Resource {
    DailyActivity,
    DailyReadiness,
    DailySleep,
    DailySpO2,
    HeartRate,
    PersonalInfo,
    RestModePeriod,
    RingConfiguration,
    Session,
    Sleep,
    SleepTime,
    Tag,
    TagV2,
    Workout,
}

impl Resource {
    /// The path of the resource below the base URL.
    pub open spec fn spec_path(self) -> Seq<char> {
        match self {
            Resource::DailyActivity => "daily_activity"@,
            Resource::DailyReadiness => "daily_readiness"@,
            Resource::DailySleep => "daily_sleep"@,
            Resource::DailySpO2 => "daily_spo2"@,
            Resource::HeartRate => "heartrate"@,
            Resource::PersonalInfo => "personal_info"@,
            Resource::RestModePeriod => "rest_mode_period"@,
            Resource::RingConfiguration => "ring_configuration"@,
            Resource::Session => "session"@,
            Resource::Sleep => "sleep"@,
            Resource::SleepTime => "sleep_time"@,
            Resource::Tag => "tag"@,
            Resource::TagV2 => "tag/v2"@,
            Resource::Workout => "workout"@,
        }
    }

    /// Whether the resource is a single document, fetched without an
    /// identifier. Only the personal information is.
    pub open spec fn spec_is_singular(self) -> bool {
        self == Resource::PersonalInfo
    }

    /// Whether single items of the resource can be fetched by identifier.
    pub open spec fn spec_has_get(self) -> bool {
        self != Resource::HeartRate && self != Resource::PersonalInfo
    }

    /// Whether the resource can be listed.
    pub open spec fn spec_has_list(self) -> bool {
        self != Resource::PersonalInfo
    }

    /// The kind of range that the list operation takes; instants for the
    /// heart rate, days for every other resource.
    pub open spec fn spec_query_kind(self) -> QueryKind {
        if self == Resource::HeartRate {
            QueryKind::Datetime
        } else {
            QueryKind::Date
        }
    }

    /// The path of the resource below the base URL.
    pub fn path(self) -> (p: &'static str)
        ensures
            p@ == self.spec_path(),
    {
        match self {
            Resource::DailyActivity => "daily_activity",
            Resource::DailyReadiness => "daily_readiness",
            Resource::DailySleep => "daily_sleep",
            Resource::DailySpO2 => "daily_spo2",
            Resource::HeartRate => "heartrate",
            Resource::PersonalInfo => "personal_info",
            Resource::RestModePeriod => "rest_mode_period",
            Resource::RingConfiguration => "ring_configuration",
            Resource::Session => "session",
            Resource::Sleep => "sleep",
            Resource::SleepTime => "sleep_time",
            Resource::Tag => "tag",
            Resource::TagV2 => "tag/v2",
            Resource::Workout => "workout",
        }
    }

    /// Whether the resource is a single document, fetched without an
    /// identifier.
    #[verifier::when_used_as_spec(spec_is_singular)]
    pub fn is_singular(self) -> (b: bool)
        ensures
            b == self.spec_is_singular(),
    {
        match self {
            Resource::PersonalInfo => true,
            _ => false,
        }
    }

    /// Whether single items of the resource can be fetched by identifier.
    #[verifier::when_used_as_spec(spec_has_get)]
    pub fn has_get(self) -> (b: bool)
        ensures
            b == self.spec_has_get(),
    {
        match self {
            Resource::HeartRate => false,
            Resource::PersonalInfo => false,
            _ => true,
        }
    }

    /// Whether the resource can be listed.
    #[verifier::when_used_as_spec(spec_has_list)]
    pub fn has_list(self) -> (b: bool)
        ensures
            b == self.spec_has_list(),
    {
        match self {
            Resource::PersonalInfo => false,
            _ => true,
        }
    }

    /// The kind of range that the list operation takes.
    #[verifier::when_used_as_spec(spec_query_kind)]
    pub fn query_kind(self) -> (k: QueryKind)
        ensures
            k == self.spec_query_kind(),
    {
        match self {
            Resource::HeartRate => QueryKind::Datetime,
            _ => QueryKind::Date,
        }
    }

    /// Every resource, once each, in the order of the declaration.
    pub open spec fn spec_all() -> Seq<Resource> {
        seq![
            Resource::DailyActivity,
            Resource::DailyReadiness,
            Resource::DailySleep,
            Resource::DailySpO2,
            Resource::HeartRate,
            Resource::PersonalInfo,
            Resource::RestModePeriod,
            Resource::RingConfiguration,
            Resource::Session,
            Resource::Sleep,
            Resource::SleepTime,
            Resource::Tag,
            Resource::TagV2,
            Resource::Workout,
        ]
    }

    /// Every resource, once each, in the order of the declaration.
    pub fn all() -> (out: Vec<Resource>)
        ensures
            out@ == Resource::spec_all(),
    {
        let out = vec![
            Resource::DailyActivity,
            Resource::DailyReadiness,
            Resource::DailySleep,
            Resource::DailySpO2,
            Resource::HeartRate,
            Resource::PersonalInfo,
            Resource::RestModePeriod,
            Resource::RingConfiguration,
            Resource::Session,
            Resource::Sleep,
            Resource::SleepTime,
            Resource::Tag,
            Resource::TagV2,
            Resource::Workout,
        ];
        assert(out@ =~= Resource::spec_all());
        out
    }

    /// The list of all resources misses none and repeats none.
    pub proof fn lemma_all_is_complete()
        ensures
            Resource::spec_all().no_duplicates(),
            forall|r: Resource| Resource::spec_all().contains(r),
    {
        let all = Resource::spec_all();
        assert forall|r: Resource| all.contains(r) by {
            match r {
                Resource::DailyActivity => assert(all[0] == r),
                Resource::DailyReadiness => assert(all[1] == r),
                Resource::DailySleep => assert(all[2] == r),
                Resource::DailySpO2 => assert(all[3] == r),
                Resource::HeartRate => assert(all[4] == r),
                Resource::PersonalInfo => assert(all[5] == r),
                Resource::RestModePeriod => assert(all[6] == r),
                Resource::RingConfiguration => assert(all[7] == r),
                Resource::Session => assert(all[8] == r),
                Resource::Sleep => assert(all[9] == r),
                Resource::SleepTime => assert(all[10] == r),
                Resource::Tag => assert(all[11] == r),
                Resource::TagV2 => assert(all[12] == r),
                Resource::Workout => assert(all[13] == r),
            }
        }
    }

    /// Every resource offers exactly one way to fetch it whole or by item:
    /// the one single document has no items and no list, and every other
    /// resource can be listed.
    pub proof fn lemma_operations(resource: Resource)
        ensures
            resource.is_singular() <==> !resource.has_list(),
            resource.has_get() ==> resource.has_list(),
            !(resource.is_singular() && resource.has_get()),
    {
    }
}

} // verus!
