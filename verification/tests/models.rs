use oura_api::models::{
    same_text, RingColor, SleepType, WorkoutSource, WorkoutIntensity, MomentType, MomentMood, SleepTimeRecommendation, SleepTimeStatus,
};

const OUTSIDE: [&str; 8] = ["", " ", "unknown", "extreme", "EASY", "Rest", "rest ", "r\u{e9}st"];

#[test]
fn ring_color_names() {
    let all = [
        (RingColor::GlossyBlack, "glossy_black"),
        (RingColor::StealthBlack, "stealth_black"),
        (RingColor::Rose, "rose"),
        (RingColor::Silver, "silver"),
        (RingColor::GlossyGold, "glossy_gold"),
    ];
    for (value, name) in all {
        assert_eq!(value.name(), name);
        assert_eq!(RingColor::from_name(name), Some(value));
        assert_eq!(RingColor::from_name(&name.to_uppercase()), None);
        assert_eq!(RingColor::from_name(&format!("{}_", name)), None);
        assert_eq!(RingColor::from_name(&name[1..]), None);
    }
    for name in OUTSIDE {
        assert_eq!(RingColor::from_name(name), None);
    }
}

#[test]
fn sleep_type_names() {
    let all = [
        (SleepType::Deleted, "deleted"),
        (SleepType::Sleep, "sleep"),
        (SleepType::LongSleep, "long_sleep"),
        (SleepType::LateNap, "late_nap"),
        (SleepType::Rest, "rest"),
    ];
    for (value, name) in all {
        assert_eq!(value.name(), name);
        assert_eq!(SleepType::from_name(name), Some(value));
        assert_eq!(SleepType::from_name(&name.to_uppercase()), None);
        assert_eq!(SleepType::from_name(&format!("{}_", name)), None);
        assert_eq!(SleepType::from_name(&name[1..]), None);
    }
    for name in OUTSIDE {
        assert_eq!(SleepType::from_name(name), None);
    }
}

#[test]
fn workout_source_names() {
    let all = [
        (WorkoutSource::Manual, "manual"),
        (WorkoutSource::Autodetected, "autodetected"),
        (WorkoutSource::Confirmed, "confirmed"),
        (WorkoutSource::WorkoutHeartRate, "workout_heart_rate"),
    ];
    for (value, name) in all {
        assert_eq!(value.name(), name);
        assert_eq!(WorkoutSource::from_name(name), Some(value));
        assert_eq!(WorkoutSource::from_name(&name.to_uppercase()), None);
        assert_eq!(WorkoutSource::from_name(&format!("{}_", name)), None);
        assert_eq!(WorkoutSource::from_name(&name[1..]), None);
    }
    for name in OUTSIDE {
        assert_eq!(WorkoutSource::from_name(name), None);
    }
}

#[test]
fn workout_intensity_names() {
    let all = [
        (WorkoutIntensity::Easy, "easy"),
        (WorkoutIntensity::Moderate, "moderate"),
        (WorkoutIntensity::Hard, "hard"),
    ];
    for (value, name) in all {
        assert_eq!(value.name(), name);
        assert_eq!(WorkoutIntensity::from_name(name), Some(value));
        assert_eq!(WorkoutIntensity::from_name(&name.to_uppercase()), None);
        assert_eq!(WorkoutIntensity::from_name(&format!("{}_", name)), None);
        assert_eq!(WorkoutIntensity::from_name(&name[1..]), None);
    }
    for name in OUTSIDE {
        assert_eq!(WorkoutIntensity::from_name(name), None);
    }
}

#[test]
fn moment_type_names() {
    let all = [
        (MomentType::Breathing, "breathing"),
        (MomentType::Meditation, "meditation"),
        (MomentType::Nap, "nap"),
        (MomentType::Relaxation, "relaxation"),
        (MomentType::Rest, "rest"),
        (MomentType::BodyStatus, "body_status"),
    ];
    for (value, name) in all {
        assert_eq!(value.name(), name);
        assert_eq!(MomentType::from_name(name), Some(value));
        assert_eq!(MomentType::from_name(&name.to_uppercase()), None);
        assert_eq!(MomentType::from_name(&format!("{}_", name)), None);
        assert_eq!(MomentType::from_name(&name[1..]), None);
    }
    for name in OUTSIDE {
        assert_eq!(MomentType::from_name(name), None);
    }
}

#[test]
fn moment_mood_names() {
    let all = [
        (MomentMood::Bad, "bad"),
        (MomentMood::Worse, "worse"),
        (MomentMood::Same, "same"),
        (MomentMood::Good, "good"),
        (MomentMood::Great, "great"),
    ];
    for (value, name) in all {
        assert_eq!(value.name(), name);
        assert_eq!(MomentMood::from_name(name), Some(value));
        assert_eq!(MomentMood::from_name(&name.to_uppercase()), None);
        assert_eq!(MomentMood::from_name(&format!("{}_", name)), None);
        assert_eq!(MomentMood::from_name(&name[1..]), None);
    }
    for name in OUTSIDE {
        assert_eq!(MomentMood::from_name(name), None);
    }
}

#[test]
fn sleep_time_recommendation_names() {
    let all = [
        (SleepTimeRecommendation::ImproveEfficiency, "improve_efficiency"),
        (SleepTimeRecommendation::EarlierBedtime, "earlier_bedtime"),
        (SleepTimeRecommendation::LaterBedtime, "later_bedtime"),
        (SleepTimeRecommendation::EarlierWakeUpTime, "earlier_wake_up_time"),
        (SleepTimeRecommendation::LaterWakeUpTime, "later_wake_up_time"),
        (SleepTimeRecommendation::FollowOptimalBedtime, "follow_optimal_bedtime"),
    ];
    for (value, name) in all {
        assert_eq!(value.name(), name);
        assert_eq!(SleepTimeRecommendation::from_name(name), Some(value));
        assert_eq!(SleepTimeRecommendation::from_name(&name.to_uppercase()), None);
        assert_eq!(SleepTimeRecommendation::from_name(&format!("{}_", name)), None);
        assert_eq!(SleepTimeRecommendation::from_name(&name[1..]), None);
    }
    for name in OUTSIDE {
        assert_eq!(SleepTimeRecommendation::from_name(name), None);
    }
}

#[test]
fn sleep_time_status_names() {
    let all = [
        (SleepTimeStatus::NotEnoughNights, "not_enough_nights"),
        (SleepTimeStatus::NotEnoughRecentNights, "not_enough_recent_nights"),
        (SleepTimeStatus::BadSleepQuality, "bad_sleep_quality"),
        (SleepTimeStatus::OnlyRecommendedFound, "only_recommended_found"),
        (SleepTimeStatus::OptimalFound, "optimal_found"),
    ];
    for (value, name) in all {
        assert_eq!(value.name(), name);
        assert_eq!(SleepTimeStatus::from_name(name), Some(value));
        assert_eq!(SleepTimeStatus::from_name(&name.to_uppercase()), None);
        assert_eq!(SleepTimeStatus::from_name(&format!("{}_", name)), None);
        assert_eq!(SleepTimeStatus::from_name(&name[1..]), None);
    }
    for name in OUTSIDE {
        assert_eq!(SleepTimeStatus::from_name(name), None);
    }
}

#[test]
fn an_unrecognized_workout_intensity_is_no_value() {
    assert_eq!(WorkoutIntensity::from_name("easy"), Some(WorkoutIntensity::Easy));
    assert_eq!(WorkoutIntensity::from_name("moderate"), Some(WorkoutIntensity::Moderate));
    assert_eq!(WorkoutIntensity::from_name("hard"), Some(WorkoutIntensity::Hard));
    assert_eq!(WorkoutIntensity::from_name("extreme"), None);
    assert_eq!(WorkoutIntensity::from_name("medium"), None);
    assert_eq!(WorkoutIntensity::from_name(""), None);
}

#[test]
fn a_name_belongs_to_its_own_vocabulary_only() {
    assert_eq!(SleepType::from_name("rest"), Some(SleepType::Rest));
    assert_eq!(MomentType::from_name("rest"), Some(MomentType::Rest));
    assert_eq!(MomentMood::from_name("rest"), None);
    assert_eq!(WorkoutSource::from_name("easy"), None);
    assert_eq!(RingColor::from_name("sleep"), None);
    assert_eq!(SleepTimeStatus::from_name("later_bedtime"), None);
    assert_eq!(SleepTimeRecommendation::from_name("optimal_found"), None);
}

#[test]
fn texts_are_compared_in_full() {
    assert!(same_text("", ""));
    assert!(same_text("rest", "rest"));
    assert!(same_text("r\u{e9}st \u{1f600}", "r\u{e9}st \u{1f600}"));
    assert!(!same_text("rest", "rest "));
    assert!(!same_text("rest", "res"));
    assert!(!same_text("rest", "resT"));
    assert!(!same_text("rest", "best"));
    assert!(!same_text("", "a"));
    assert!(!same_text("r\u{e9}st", "rest"));
}
