//! The closed vocabularies of the records: fields that hold one of a fixed
//! set of names.
//!
//! A name outside the vocabulary of a field stands for no value. There is
//! no default: a decoder that meets such a name has to fail.

use vstd::prelude::*;
use vstd::string::StringSliceAdditionalSpecFns;
use vstd::utf8::encode_utf8_decode_utf8;

verus! {

/// Whether two string slices hold the same text.
pub fn same_text(a: &str, b: &str) -> (same: bool)
    ensures
        same == (a@ == b@),
{
    let x = a.as_bytes();
    let y = b.as_bytes();
    proof {
        encode_utf8_decode_utf8(a@);
        encode_utf8_decode_utf8(b@);
    }
    if x.len() != y.len() {
        return false;
    }
    let mut i: usize = 0;
    while i < x.len()
        invariant
            i <= x.len(),
            x.len() == y.len(),
            x@ == a.spec_bytes(),
            y@ == b.spec_bytes(),
            forall|k: int| 0 <= k < i ==> x@[k] == y@[k],
        decreases x.len() - i,
    {
        if x[i] != y[i] {
            return false;
        }
        i += 1;
    }
    assert(x@ =~= y@);
    true
}

/// The colour of a ring.
#[derive(Clone, Copy, Debug, PartialEq, Eq, Hash, Structural)]
pub enum RingColor {
    GlossyBlack,
    StealthBlack,
    Rose,
    Silver,
    GlossyGold,
}

impl RingColor {
    /// The name of the value on the wire.
    pub open spec fn spec_name(self) -> Seq<char> {
        match self {
            RingColor::GlossyBlack => "glossy_black"@,
            RingColor::StealthBlack => "stealth_black"@,
            RingColor::Rose => "rose"@,
            RingColor::Silver => "silver"@,
            RingColor::GlossyGold => "glossy_gold"@,
        }
    }

    /// The value that a name on the wire stands for; none for a name
    /// outside the vocabulary.
    pub open spec fn spec_from_name(text: Seq<char>) -> Option<RingColor> {
        if text == "glossy_black"@ {
            Some(RingColor::GlossyBlack)
        } else if text == "stealth_black"@ {
            Some(RingColor::StealthBlack)
        } else if text == "rose"@ {
            Some(RingColor::Rose)
        } else if text == "silver"@ {
            Some(RingColor::Silver)
        } else if text == "glossy_gold"@ {
            Some(RingColor::GlossyGold)
        } else {
            None
        }
    }

    /// The name of the value on the wire.
    pub fn name(self) -> (n: &'static str)
        ensures
            n@ == self.spec_name(),
    {
        match self {
            RingColor::GlossyBlack => "glossy_black",
            RingColor::StealthBlack => "stealth_black",
            RingColor::Rose => "rose",
            RingColor::Silver => "silver",
            RingColor::GlossyGold => "glossy_gold",
        }
    }

    /// The value that a name on the wire stands for; none for a name
    /// outside the vocabulary.
    pub fn from_name(text: &str) -> (value: Option<RingColor>)
        ensures
            value == RingColor::spec_from_name(text@),
    {
        if same_text(text, "glossy_black") {
            Some(RingColor::GlossyBlack)
        } else if same_text(text, "stealth_black") {
            Some(RingColor::StealthBlack)
        } else if same_text(text, "rose") {
            Some(RingColor::Rose)
        } else if same_text(text, "silver") {
            Some(RingColor::Silver)
        } else if same_text(text, "glossy_gold") {
            Some(RingColor::GlossyGold)
        } else {
            None
        }
    }

    /// The vocabulary is closed and its names are distinct: a name stands
    /// for a value exactly where it is the name of that value, and for none
    /// where it is the name of no value.
    pub proof fn lemma_closed(text: Seq<char>, value: RingColor)
        ensures
            RingColor::spec_from_name(value.spec_name()) == Some(value),
            RingColor::spec_from_name(text) == Some(value) <==> text == value.spec_name(),
            RingColor::spec_from_name(text) is None <==> forall|v: RingColor| v.spec_name() != text,
    {
        reveal_strlit("glossy_black");
        reveal_strlit("stealth_black");
        reveal_strlit("rose");
        reveal_strlit("silver");
        reveal_strlit("glossy_gold");
        assert("glossy_black"@.len() != "stealth_black"@.len());
        assert("glossy_black"@.len() != "rose"@.len());
        assert("glossy_black"@.len() != "silver"@.len());
        assert("glossy_black"@.len() != "glossy_gold"@.len());
        assert("stealth_black"@.len() != "rose"@.len());
        assert("stealth_black"@.len() != "silver"@.len());
        assert("stealth_black"@.len() != "glossy_gold"@.len());
        assert("rose"@.len() != "silver"@.len());
        assert("rose"@.len() != "glossy_gold"@.len());
        assert("silver"@.len() != "glossy_gold"@.len());
        match RingColor::spec_from_name(text) {
            Some(found) => assert(found.spec_name() == text),
            None => {},
        }
    }
}

/// The kind of a sleep period.
#[derive(Clone, Copy, Debug, PartialEq, Eq, Hash, Structural)]
pub enum SleepType {
    Deleted,
    Sleep,
    LongSleep,
    LateNap,
    Rest,
}

impl SleepType {
    /// The name of the value on the wire.
    pub open spec fn spec_name(self) -> Seq<char> {
        match self {
            SleepType::Deleted => "deleted"@,
            SleepType::Sleep => "sleep"@,
            SleepType::LongSleep => "long_sleep"@,
            SleepType::LateNap => "late_nap"@,
            SleepType::Rest => "rest"@,
        }
    }

    /// The value that a name on the wire stands for; none for a name
    /// outside the vocabulary.
    pub open spec fn spec_from_name(text: Seq<char>) -> Option<SleepType> {
        if text == "deleted"@ {
            Some(SleepType::Deleted)
        } else if text == "sleep"@ {
            Some(SleepType::Sleep)
        } else if text == "long_sleep"@ {
            Some(SleepType::LongSleep)
        } else if text == "late_nap"@ {
            Some(SleepType::LateNap)
        } else if text == "rest"@ {
            Some(SleepType::Rest)
        } else {
            None
        }
    }

    /// The name of the value on the wire.
    pub fn name(self) -> (n: &'static str)
        ensures
            n@ == self.spec_name(),
    {
        match self {
            SleepType::Deleted => "deleted",
            SleepType::Sleep => "sleep",
            SleepType::LongSleep => "long_sleep",
            SleepType::LateNap => "late_nap",
            SleepType::Rest => "rest",
        }
    }

    /// The value that a name on the wire stands for; none for a name
    /// outside the vocabulary.
    pub fn from_name(text: &str) -> (value: Option<SleepType>)
        ensures
            value == SleepType::spec_from_name(text@),
    {
        if same_text(text, "deleted") {
            Some(SleepType::Deleted)
        } else if same_text(text, "sleep") {
            Some(SleepType::Sleep)
        } else if same_text(text, "long_sleep") {
            Some(SleepType::LongSleep)
        } else if same_text(text, "late_nap") {
            Some(SleepType::LateNap)
        } else if same_text(text, "rest") {
            Some(SleepType::Rest)
        } else {
            None
        }
    }

    /// The vocabulary is closed and its names are distinct: a name stands
    /// for a value exactly where it is the name of that value, and for none
    /// where it is the name of no value.
    pub proof fn lemma_closed(text: Seq<char>, value: SleepType)
        ensures
            SleepType::spec_from_name(value.spec_name()) == Some(value),
            SleepType::spec_from_name(text) == Some(value) <==> text == value.spec_name(),
            SleepType::spec_from_name(text) is None <==> forall|v: SleepType| v.spec_name() != text,
    {
        reveal_strlit("deleted");
        reveal_strlit("sleep");
        reveal_strlit("long_sleep");
        reveal_strlit("late_nap");
        reveal_strlit("rest");
        assert("deleted"@.len() != "sleep"@.len());
        assert("deleted"@.len() != "long_sleep"@.len());
        assert("deleted"@.len() != "late_nap"@.len());
        assert("deleted"@.len() != "rest"@.len());
        assert("sleep"@.len() != "long_sleep"@.len());
        assert("sleep"@.len() != "late_nap"@.len());
        assert("sleep"@.len() != "rest"@.len());
        assert("long_sleep"@.len() != "late_nap"@.len());
        assert("long_sleep"@.len() != "rest"@.len());
        assert("late_nap"@.len() != "rest"@.len());
        match SleepType::spec_from_name(text) {
            Some(found) => assert(found.spec_name() == text),
            None => {},
        }
    }
}

/// Where the record of a workout came from.
#[derive(Clone, Copy, Debug, PartialEq, Eq, Hash, Structural)]
pub enum WorkoutSource {
    Manual,
    Autodetected,
    Confirmed,
    WorkoutHeartRate,
}

impl WorkoutSource {
    /// The name of the value on the wire.
    pub open spec fn spec_name(self) -> Seq<char> {
        match self {
            WorkoutSource::Manual => "manual"@,
            WorkoutSource::Autodetected => "autodetected"@,
            WorkoutSource::Confirmed => "confirmed"@,
            WorkoutSource::WorkoutHeartRate => "workout_heart_rate"@,
        }
    }

    /// The value that a name on the wire stands for; none for a name
    /// outside the vocabulary.
    pub open spec fn spec_from_name(text: Seq<char>) -> Option<WorkoutSource> {
        if text == "manual"@ {
            Some(WorkoutSource::Manual)
        } else if text == "autodetected"@ {
            Some(WorkoutSource::Autodetected)
        } else if text == "confirmed"@ {
            Some(WorkoutSource::Confirmed)
        } else if text == "workout_heart_rate"@ {
            Some(WorkoutSource::WorkoutHeartRate)
        } else {
            None
        }
    }

    /// The name of the value on the wire.
    pub fn name(self) -> (n: &'static str)
        ensures
            n@ == self.spec_name(),
    {
        match self {
            WorkoutSource::Manual => "manual",
            WorkoutSource::Autodetected => "autodetected",
            WorkoutSource::Confirmed => "confirmed",
            WorkoutSource::WorkoutHeartRate => "workout_heart_rate",
        }
    }

    /// The value that a name on the wire stands for; none for a name
    /// outside the vocabulary.
    pub fn from_name(text: &str) -> (value: Option<WorkoutSource>)
        ensures
            value == WorkoutSource::spec_from_name(text@),
    {
        if same_text(text, "manual") {
            Some(WorkoutSource::Manual)
        } else if same_text(text, "autodetected") {
            Some(WorkoutSource::Autodetected)
        } else if same_text(text, "confirmed") {
            Some(WorkoutSource::Confirmed)
        } else if same_text(text, "workout_heart_rate") {
            Some(WorkoutSource::WorkoutHeartRate)
        } else {
            None
        }
    }

    /// The vocabulary is closed and its names are distinct: a name stands
    /// for a value exactly where it is the name of that value, and for none
    /// where it is the name of no value.
    pub proof fn lemma_closed(text: Seq<char>, value: WorkoutSource)
        ensures
            WorkoutSource::spec_from_name(value.spec_name()) == Some(value),
            WorkoutSource::spec_from_name(text) == Some(value) <==> text == value.spec_name(),
            WorkoutSource::spec_from_name(text) is None <==> forall|v: WorkoutSource| v.spec_name() != text,
    {
        reveal_strlit("manual");
        reveal_strlit("autodetected");
        reveal_strlit("confirmed");
        reveal_strlit("workout_heart_rate");
        assert("manual"@.len() != "autodetected"@.len());
        assert("manual"@.len() != "confirmed"@.len());
        assert("manual"@.len() != "workout_heart_rate"@.len());
        assert("autodetected"@.len() != "confirmed"@.len());
        assert("autodetected"@.len() != "workout_heart_rate"@.len());
        assert("confirmed"@.len() != "workout_heart_rate"@.len());
        match WorkoutSource::spec_from_name(text) {
            Some(found) => assert(found.spec_name() == text),
            None => {},
        }
    }
}

/// How hard a workout was.
#[derive(Clone, Copy, Debug, PartialEq, Eq, Hash, Structural)]
pub enum WorkoutIntensity {
    Easy,
    Moderate,
    Hard,
}

impl WorkoutIntensity {
    /// The name of the value on the wire.
    pub open spec fn spec_name(self) -> Seq<char> {
        match self {
            WorkoutIntensity::Easy => "easy"@,
            WorkoutIntensity::Moderate => "moderate"@,
            WorkoutIntensity::Hard => "hard"@,
        }
    }

    /// The value that a name on the wire stands for; none for a name
    /// outside the vocabulary.
    pub open spec fn spec_from_name(text: Seq<char>) -> Option<WorkoutIntensity> {
        if text == "easy"@ {
            Some(WorkoutIntensity::Easy)
        } else if text == "moderate"@ {
            Some(WorkoutIntensity::Moderate)
        } else if text == "hard"@ {
            Some(WorkoutIntensity::Hard)
        } else {
            None
        }
    }

    /// The name of the value on the wire.
    pub fn name(self) -> (n: &'static str)
        ensures
            n@ == self.spec_name(),
    {
        match self {
            WorkoutIntensity::Easy => "easy",
            WorkoutIntensity::Moderate => "moderate",
            WorkoutIntensity::Hard => "hard",
        }
    }

    /// The value that a name on the wire stands for; none for a name
    /// outside the vocabulary.
    pub fn from_name(text: &str) -> (value: Option<WorkoutIntensity>)
        ensures
            value == WorkoutIntensity::spec_from_name(text@),
    {
        if same_text(text, "easy") {
            Some(WorkoutIntensity::Easy)
        } else if same_text(text, "moderate") {
            Some(WorkoutIntensity::Moderate)
        } else if same_text(text, "hard") {
            Some(WorkoutIntensity::Hard)
        } else {
            None
        }
    }

    /// The vocabulary is closed and its names are distinct: a name stands
    /// for a value exactly where it is the name of that value, and for none
    /// where it is the name of no value.
    pub proof fn lemma_closed(text: Seq<char>, value: WorkoutIntensity)
        ensures
            WorkoutIntensity::spec_from_name(value.spec_name()) == Some(value),
            WorkoutIntensity::spec_from_name(text) == Some(value) <==> text == value.spec_name(),
            WorkoutIntensity::spec_from_name(text) is None <==> forall|v: WorkoutIntensity| v.spec_name() != text,
    {
        reveal_strlit("easy");
        reveal_strlit("moderate");
        reveal_strlit("hard");
        assert("easy"@.len() != "moderate"@.len());
        assert("easy"@[0] != "hard"@[0]);
        assert("moderate"@.len() != "hard"@.len());
        match WorkoutIntensity::spec_from_name(text) {
            Some(found) => assert(found.spec_name() == text),
            None => {},
        }
    }
}

/// The kind of a session.
#[derive(Clone, Copy, Debug, PartialEq, Eq, Hash, Structural)]
pub enum MomentType {
    Breathing,
    Meditation,
    Nap,
    Relaxation,
    Rest,
    BodyStatus,
}

impl MomentType {
    /// The name of the value on the wire.
    pub open spec fn spec_name(self) -> Seq<char> {
        match self {
            MomentType::Breathing => "breathing"@,
            MomentType::Meditation => "meditation"@,
            MomentType::Nap => "nap"@,
            MomentType::Relaxation => "relaxation"@,
            MomentType::Rest => "rest"@,
            MomentType::BodyStatus => "body_status"@,
        }
    }

    /// The value that a name on the wire stands for; none for a name
    /// outside the vocabulary.
    pub open spec fn spec_from_name(text: Seq<char>) -> Option<MomentType> {
        if text == "breathing"@ {
            Some(MomentType::Breathing)
        } else if text == "meditation"@ {
            Some(MomentType::Meditation)
        } else if text == "nap"@ {
            Some(MomentType::Nap)
        } else if text == "relaxation"@ {
            Some(MomentType::Relaxation)
        } else if text == "rest"@ {
            Some(MomentType::Rest)
        } else if text == "body_status"@ {
            Some(MomentType::BodyStatus)
        } else {
            None
        }
    }

    /// The name of the value on the wire.
    pub fn name(self) -> (n: &'static str)
        ensures
            n@ == self.spec_name(),
    {
        match self {
            MomentType::Breathing => "breathing",
            MomentType::Meditation => "meditation",
            MomentType::Nap => "nap",
            MomentType::Relaxation => "relaxation",
            MomentType::Rest => "rest",
            MomentType::BodyStatus => "body_status",
        }
    }

    /// The value that a name on the wire stands for; none for a name
    /// outside the vocabulary.
    pub fn from_name(text: &str) -> (value: Option<MomentType>)
        ensures
            value == MomentType::spec_from_name(text@),
    {
        if same_text(text, "breathing") {
            Some(MomentType::Breathing)
        } else if same_text(text, "meditation") {
            Some(MomentType::Meditation)
        } else if same_text(text, "nap") {
            Some(MomentType::Nap)
        } else if same_text(text, "relaxation") {
            Some(MomentType::Relaxation)
        } else if same_text(text, "rest") {
            Some(MomentType::Rest)
        } else if same_text(text, "body_status") {
            Some(MomentType::BodyStatus)
        } else {
            None
        }
    }

    /// The vocabulary is closed and its names are distinct: a name stands
    /// for a value exactly where it is the name of that value, and for none
    /// where it is the name of no value.
    pub proof fn lemma_closed(text: Seq<char>, value: MomentType)
        ensures
            MomentType::spec_from_name(value.spec_name()) == Some(value),
            MomentType::spec_from_name(text) == Some(value) <==> text == value.spec_name(),
            MomentType::spec_from_name(text) is None <==> forall|v: MomentType| v.spec_name() != text,
    {
        reveal_strlit("breathing");
        reveal_strlit("meditation");
        reveal_strlit("nap");
        reveal_strlit("relaxation");
        reveal_strlit("rest");
        reveal_strlit("body_status");
        assert("breathing"@.len() != "meditation"@.len());
        assert("breathing"@.len() != "nap"@.len());
        assert("breathing"@.len() != "relaxation"@.len());
        assert("breathing"@.len() != "rest"@.len());
        assert("breathing"@.len() != "body_status"@.len());
        assert("meditation"@.len() != "nap"@.len());
        assert("meditation"@[0] != "relaxation"@[0]);
        assert("meditation"@.len() != "rest"@.len());
        assert("meditation"@.len() != "body_status"@.len());
        assert("nap"@.len() != "relaxation"@.len());
        assert("nap"@.len() != "rest"@.len());
        assert("nap"@.len() != "body_status"@.len());
        assert("relaxation"@.len() != "rest"@.len());
        assert("relaxation"@.len() != "body_status"@.len());
        assert("rest"@.len() != "body_status"@.len());
        match MomentType::spec_from_name(text) {
            Some(found) => assert(found.spec_name() == text),
            None => {},
        }
    }
}

/// The mood recorded with a session.
#[derive(Clone, Copy, Debug, PartialEq, Eq, Hash, Structural)]
pub enum MomentMood {
    Bad,
    Worse,
    Same,
    Good,
    Great,
}

impl MomentMood {
    /// The name of the value on the wire.
    pub open spec fn spec_name(self) -> Seq<char> {
        match self {
            MomentMood::Bad => "bad"@,
            MomentMood::Worse => "worse"@,
            MomentMood::Same => "same"@,
            MomentMood::Good => "good"@,
            MomentMood::Great => "great"@,
        }
    }

    /// The value that a name on the wire stands for; none for a name
    /// outside the vocabulary.
    pub open spec fn spec_from_name(text: Seq<char>) -> Option<MomentMood> {
        if text == "bad"@ {
            Some(MomentMood::Bad)
        } else if text == "worse"@ {
            Some(MomentMood::Worse)
        } else if text == "same"@ {
            Some(MomentMood::Same)
        } else if text == "good"@ {
            Some(MomentMood::Good)
        } else if text == "great"@ {
            Some(MomentMood::Great)
        } else {
            None
        }
    }

    /// The name of the value on the wire.
    pub fn name(self) -> (n: &'static str)
        ensures
            n@ == self.spec_name(),
    {
        match self {
            MomentMood::Bad => "bad",
            MomentMood::Worse => "worse",
            MomentMood::Same => "same",
            MomentMood::Good => "good",
            MomentMood::Great => "great",
        }
    }

    /// The value that a name on the wire stands for; none for a name
    /// outside the vocabulary.
    pub fn from_name(text: &str) -> (value: Option<MomentMood>)
        ensures
            value == MomentMood::spec_from_name(text@),
    {
        if same_text(text, "bad") {
            Some(MomentMood::Bad)
        } else if same_text(text, "worse") {
            Some(MomentMood::Worse)
        } else if same_text(text, "same") {
            Some(MomentMood::Same)
        } else if same_text(text, "good") {
            Some(MomentMood::Good)
        } else if same_text(text, "great") {
            Some(MomentMood::Great)
        } else {
            None
        }
    }

    /// The vocabulary is closed and its names are distinct: a name stands
    /// for a value exactly where it is the name of that value, and for none
    /// where it is the name of no value.
    pub proof fn lemma_closed(text: Seq<char>, value: MomentMood)
        ensures
            MomentMood::spec_from_name(value.spec_name()) == Some(value),
            MomentMood::spec_from_name(text) == Some(value) <==> text == value.spec_name(),
            MomentMood::spec_from_name(text) is None <==> forall|v: MomentMood| v.spec_name() != text,
    {
        reveal_strlit("bad");
        reveal_strlit("worse");
        reveal_strlit("same");
        reveal_strlit("good");
        reveal_strlit("great");
        assert("bad"@.len() != "worse"@.len());
        assert("bad"@.len() != "same"@.len());
        assert("bad"@.len() != "good"@.len());
        assert("bad"@.len() != "great"@.len());
        assert("worse"@.len() != "same"@.len());
        assert("worse"@.len() != "good"@.len());
        assert("worse"@[0] != "great"@[0]);
        assert("same"@[0] != "good"@[0]);
        assert("same"@.len() != "great"@.len());
        assert("good"@.len() != "great"@.len());
        match MomentMood::spec_from_name(text) {
            Some(found) => assert(found.spec_name() == text),
            None => {},
        }
    }
}

/// What is recommended for the time of going to bed.
#[derive(Clone, Copy, Debug, PartialEq, Eq, Hash, Structural)]
pub enum SleepTimeRecommendation {
    ImproveEfficiency,
    EarlierBedtime,
    LaterBedtime,
    EarlierWakeUpTime,
    LaterWakeUpTime,
    FollowOptimalBedtime,
}

impl SleepTimeRecommendation {
    /// The name of the value on the wire.
    pub open spec fn spec_name(self) -> Seq<char> {
        match self {
            SleepTimeRecommendation::ImproveEfficiency => "improve_efficiency"@,
            SleepTimeRecommendation::EarlierBedtime => "earlier_bedtime"@,
            SleepTimeRecommendation::LaterBedtime => "later_bedtime"@,
            SleepTimeRecommendation::EarlierWakeUpTime => "earlier_wake_up_time"@,
            SleepTimeRecommendation::LaterWakeUpTime => "later_wake_up_time"@,
            SleepTimeRecommendation::FollowOptimalBedtime => "follow_optimal_bedtime"@,
        }
    }

    /// The value that a name on the wire stands for; none for a name
    /// outside the vocabulary.
    pub open spec fn spec_from_name(text: Seq<char>) -> Option<SleepTimeRecommendation> {
        if text == "improve_efficiency"@ {
            Some(SleepTimeRecommendation::ImproveEfficiency)
        } else if text == "earlier_bedtime"@ {
            Some(SleepTimeRecommendation::EarlierBedtime)
        } else if text == "later_bedtime"@ {
            Some(SleepTimeRecommendation::LaterBedtime)
        } else if text == "earlier_wake_up_time"@ {
            Some(SleepTimeRecommendation::EarlierWakeUpTime)
        } else if text == "later_wake_up_time"@ {
            Some(SleepTimeRecommendation::LaterWakeUpTime)
        } else if text == "follow_optimal_bedtime"@ {
            Some(SleepTimeRecommendation::FollowOptimalBedtime)
        } else {
            None
        }
    }

    /// The name of the value on the wire.
    pub fn name(self) -> (n: &'static str)
        ensures
            n@ == self.spec_name(),
    {
        match self {
            SleepTimeRecommendation::ImproveEfficiency => "improve_efficiency",
            SleepTimeRecommendation::EarlierBedtime => "earlier_bedtime",
            SleepTimeRecommendation::LaterBedtime => "later_bedtime",
            SleepTimeRecommendation::EarlierWakeUpTime => "earlier_wake_up_time",
            SleepTimeRecommendation::LaterWakeUpTime => "later_wake_up_time",
            SleepTimeRecommendation::FollowOptimalBedtime => "follow_optimal_bedtime",
        }
    }

    /// The value that a name on the wire stands for; none for a name
    /// outside the vocabulary.
    pub fn from_name(text: &str) -> (value: Option<SleepTimeRecommendation>)
        ensures
            value == SleepTimeRecommendation::spec_from_name(text@),
    {
        if same_text(text, "improve_efficiency") {
            Some(SleepTimeRecommendation::ImproveEfficiency)
        } else if same_text(text, "earlier_bedtime") {
            Some(SleepTimeRecommendation::EarlierBedtime)
        } else if same_text(text, "later_bedtime") {
            Some(SleepTimeRecommendation::LaterBedtime)
        } else if same_text(text, "earlier_wake_up_time") {
            Some(SleepTimeRecommendation::EarlierWakeUpTime)
        } else if same_text(text, "later_wake_up_time") {
            Some(SleepTimeRecommendation::LaterWakeUpTime)
        } else if same_text(text, "follow_optimal_bedtime") {
            Some(SleepTimeRecommendation::FollowOptimalBedtime)
        } else {
            None
        }
    }

    /// The vocabulary is closed and its names are distinct: a name stands
    /// for a value exactly where it is the name of that value, and for none
    /// where it is the name of no value.
    pub proof fn lemma_closed(text: Seq<char>, value: SleepTimeRecommendation)
        ensures
            SleepTimeRecommendation::spec_from_name(value.spec_name()) == Some(value),
            SleepTimeRecommendation::spec_from_name(text) == Some(value) <==> text == value.spec_name(),
            SleepTimeRecommendation::spec_from_name(text) is None <==> forall|v: SleepTimeRecommendation| v.spec_name() != text,
    {
        reveal_strlit("improve_efficiency");
        reveal_strlit("earlier_bedtime");
        reveal_strlit("later_bedtime");
        reveal_strlit("earlier_wake_up_time");
        reveal_strlit("later_wake_up_time");
        reveal_strlit("follow_optimal_bedtime");
        assert("improve_efficiency"@.len() != "earlier_bedtime"@.len());
        assert("improve_efficiency"@.len() != "later_bedtime"@.len());
        assert("improve_efficiency"@.len() != "earlier_wake_up_time"@.len());
        assert("improve_efficiency"@[0] != "later_wake_up_time"@[0]);
        assert("improve_efficiency"@.len() != "follow_optimal_bedtime"@.len());
        assert("earlier_bedtime"@.len() != "later_bedtime"@.len());
        assert("earlier_bedtime"@.len() != "earlier_wake_up_time"@.len());
        assert("earlier_bedtime"@.len() != "later_wake_up_time"@.len());
        assert("earlier_bedtime"@.len() != "follow_optimal_bedtime"@.len());
        assert("later_bedtime"@.len() != "earlier_wake_up_time"@.len());
        assert("later_bedtime"@.len() != "later_wake_up_time"@.len());
        assert("later_bedtime"@.len() != "follow_optimal_bedtime"@.len());
        assert("earlier_wake_up_time"@.len() != "later_wake_up_time"@.len());
        assert("earlier_wake_up_time"@.len() != "follow_optimal_bedtime"@.len());
        assert("later_wake_up_time"@.len() != "follow_optimal_bedtime"@.len());
        match SleepTimeRecommendation::spec_from_name(text) {
            Some(found) => assert(found.spec_name() == text),
            None => {},
        }
    }
}

/// How well founded a sleep time recommendation is.
#[derive(Clone, Copy, Debug, PartialEq, Eq, Hash, Structural)]
pub enum SleepTimeStatus {
    NotEnoughNights,
    NotEnoughRecentNights,
    BadSleepQuality,
    OnlyRecommendedFound,
    OptimalFound,
}

impl SleepTimeStatus {
    /// The name of the value on the wire.
    pub open spec fn spec_name(self) -> Seq<char> {
        match self {
            SleepTimeStatus::NotEnoughNights => "not_enough_nights"@,
            SleepTimeStatus::NotEnoughRecentNights => "not_enough_recent_nights"@,
            SleepTimeStatus::BadSleepQuality => "bad_sleep_quality"@,
            SleepTimeStatus::OnlyRecommendedFound => "only_recommended_found"@,
            SleepTimeStatus::OptimalFound => "optimal_found"@,
        }
    }

    /// The value that a name on the wire stands for; none for a name
    /// outside the vocabulary.
    pub open spec fn spec_from_name(text: Seq<char>) -> Option<SleepTimeStatus> {
        if text == "not_enough_nights"@ {
            Some(SleepTimeStatus::NotEnoughNights)
        } else if text == "not_enough_recent_nights"@ {
            Some(SleepTimeStatus::NotEnoughRecentNights)
        } else if text == "bad_sleep_quality"@ {
            Some(SleepTimeStatus::BadSleepQuality)
        } else if text == "only_recommended_found"@ {
            Some(SleepTimeStatus::OnlyRecommendedFound)
        } else if text == "optimal_found"@ {
            Some(SleepTimeStatus::OptimalFound)
        } else {
            None
        }
    }

    /// The name of the value on the wire.
    pub fn name(self) -> (n: &'static str)
        ensures
            n@ == self.spec_name(),
    {
        match self {
            SleepTimeStatus::NotEnoughNights => "not_enough_nights",
            SleepTimeStatus::NotEnoughRecentNights => "not_enough_recent_nights",
            SleepTimeStatus::BadSleepQuality => "bad_sleep_quality",
            SleepTimeStatus::OnlyRecommendedFound => "only_recommended_found",
            SleepTimeStatus::OptimalFound => "optimal_found",
        }
    }

    /// The value that a name on the wire stands for; none for a name
    /// outside the vocabulary.
    pub fn from_name(text: &str) -> (value: Option<SleepTimeStatus>)
        ensures
            value == SleepTimeStatus::spec_from_name(text@),
    {
        if same_text(text, "not_enough_nights") {
            Some(SleepTimeStatus::NotEnoughNights)
        } else if same_text(text, "not_enough_recent_nights") {
            Some(SleepTimeStatus::NotEnoughRecentNights)
        } else if same_text(text, "bad_sleep_quality") {
            Some(SleepTimeStatus::BadSleepQuality)
        } else if same_text(text, "only_recommended_found") {
            Some(SleepTimeStatus::OnlyRecommendedFound)
        } else if same_text(text, "optimal_found") {
            Some(SleepTimeStatus::OptimalFound)
        } else {
            None
        }
    }

    /// The vocabulary is closed and its names are distinct: a name stands
    /// for a value exactly where it is the name of that value, and for none
    /// where it is the name of no value.
    pub proof fn lemma_closed(text: Seq<char>, value: SleepTimeStatus)
        ensures
            SleepTimeStatus::spec_from_name(value.spec_name()) == Some(value),
            SleepTimeStatus::spec_from_name(text) == Some(value) <==> text == value.spec_name(),
            SleepTimeStatus::spec_from_name(text) is None <==> forall|v: SleepTimeStatus| v.spec_name() != text,
    {
        reveal_strlit("not_enough_nights");
        reveal_strlit("not_enough_recent_nights");
        reveal_strlit("bad_sleep_quality");
        reveal_strlit("only_recommended_found");
        reveal_strlit("optimal_found");
        assert("not_enough_nights"@.len() != "not_enough_recent_nights"@.len());
        assert("not_enough_nights"@[0] != "bad_sleep_quality"@[0]);
        assert("not_enough_nights"@.len() != "only_recommended_found"@.len());
        assert("not_enough_nights"@.len() != "optimal_found"@.len());
        assert("not_enough_recent_nights"@.len() != "bad_sleep_quality"@.len());
        assert("not_enough_recent_nights"@.len() != "only_recommended_found"@.len());
        assert("not_enough_recent_nights"@.len() != "optimal_found"@.len());
        assert("bad_sleep_quality"@.len() != "only_recommended_found"@.len());
        assert("bad_sleep_quality"@.len() != "optimal_found"@.len());
        assert("only_recommended_found"@.len() != "optimal_found"@.len());
        match SleepTimeStatus::spec_from_name(text) {
            Some(found) => assert(found.spec_name() == text),
            None => {},
        }
    }
}

} // verus!
