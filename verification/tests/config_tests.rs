use study_timer::config::{Config, ConfigError};
use study_timer::hours::Hours;

fn hours(value: f32) -> Hours {
    Hours::from_bits(value.to_bits())
}

fn as_number(hours: Hours) -> f32 {
    f32::from_bits(hours.to_bits())
}

#[test]
fn test_default_config() {
    let config = Config::default();

    assert!(config.subjects.is_empty());
    assert!(config.schedules.is_empty());
}

#[test]
fn config_test_add_subject() {
    let mut config = Config::default();
    let result = config.add_subject("dsa", hours(10.0));

    assert!(result.is_ok());
    assert!(config.subjects.contains_key("dsa"));
    assert_eq!(as_number(config.subjects.get("dsa").unwrap().target_hours), 10.0);
    assert_eq!(as_number(config.subjects.get("dsa").unwrap().completed_hours), 0.0);

    let result = config.add_subject("ml/ai", hours(0.0));
    assert!(result.is_err());
    assert!(!config.subjects.contains_key("ml/ai"));

    let result = config.add_subject("poetry", hours(-5.0));
    assert!(result.is_err());
    assert!(!config.subjects.contains_key("poetry"));
}

#[test]
fn config_test_add_schedule() {
    let mut config = Config::default();

    config.add_subject("QA", hours(10.0)).unwrap();

    let result = config.add_schedule("QA", "Monday", "09:00", 60);
    assert!(result.is_ok());

    let qa_schedules = config.schedules.get("QA").unwrap();
    assert_eq!(qa_schedules.len(), 1);
    assert_eq!(qa_schedules[0].day, "Monday");
    assert_eq!(qa_schedules[0].start_time, "09:00");
    assert_eq!(qa_schedules[0].duration, 60);

    let result = config.add_schedule("embedded", "Monday", "10:00", 30);
    assert!(result.is_err());
    assert!(!config.schedules.contains_key("embedded"));

    let result = config.add_schedule("BE", "ijumaa", "10:00", 30);
    assert!(result.is_err());

    let qa_schedules = config.schedules.get("QA").unwrap();
    assert_eq!(qa_schedules.len(), 1);

    config.add_schedule("QA", "Tuesday", "14:00", 45).unwrap();

    let qa_schedules = config.schedules.get("QA").unwrap();
    assert_eq!(qa_schedules.len(), 2);
    assert_eq!(qa_schedules[1].day, "Tuesday");
}

#[test]
fn test_invalid_time_format() {
    let mut config = Config::default();
    config.add_subject("OS", hours(10.0)).unwrap();

    let result = config.add_schedule("OS", "Wednesday", "1000", 60);
    assert!(result.is_err());

    let result = config.add_schedule("OS", "Wednesday", "10:00:00", 60);
    assert!(result.is_err());
}

#[test]
fn added_subject_holds_the_exact_target() {
    let mut config = Config::default();
    let target = hours(12.625);
    assert_eq!(config.add_subject("algebra", target), Ok(()));

    let found = config.subjects.get("algebra").unwrap();
    assert_eq!(found.target_hours, target);
    assert_eq!(found.completed_hours.to_bits(), 0);
    assert_eq!(config.subjects.len(), 1);
    assert!(config.schedules.is_empty());
}

#[test]
fn adding_a_subject_again_resets_it_in_place() {
    let mut config = Config::default();
    config.add_subject("first", hours(1.0)).unwrap();
    config.add_subject("second", hours(2.0)).unwrap();
    config.add_subject("first", hours(3.0)).unwrap();

    assert_eq!(config.subjects.len(), 2);
    assert_eq!(config.subjects.name_at(0), "first");
    assert_eq!(config.subjects.name_at(1), "second");
    assert_eq!(as_number(config.subjects.value_at(0).target_hours), 3.0);
    assert_eq!(as_number(config.subjects.get("second").unwrap().target_hours), 2.0);
}

#[test]
fn targets_that_are_not_above_zero_are_refused() {
    let mut config = Config::default();
    let refused = [0.0f32, -0.0, -5.0, f32::NEG_INFINITY, f32::NAN, -f32::NAN, -1e-40];
    for value in refused {
        let result = config.add_subject("x", hours(value));
        assert_eq!(result, Err(ConfigError::NonPositiveTarget));
        assert!(result.unwrap_err().is_validation());
        assert!(config.subjects.is_empty());
    }
}

#[test]
fn targets_above_zero_are_accepted() {
    let accepted = [10.0f32, 0.25, f32::MIN_POSITIVE, 1e-40, f32::MAX, f32::INFINITY];
    for value in accepted {
        let mut config = Config::default();
        assert_eq!(config.add_subject("x", hours(value)), Ok(()));
        assert_eq!(config.subjects.get("x").unwrap().target_hours.to_bits(), value.to_bits());
    }
}

#[test]
fn unknown_subject_is_reported_before_anything_else() {
    let mut config = Config::default();
    config.add_subject("known", hours(1.0)).unwrap();

    let result = config.add_schedule("unknown", "ijumaa", "1000", 0);
    assert_eq!(result, Err(ConfigError::UnknownSubject));
    assert!(!result.unwrap_err().is_validation());
    assert!(config.schedules.is_empty());
    assert_eq!(config.subjects.len(), 1);
}

#[test]
fn each_validation_error_has_an_input() {
    let mut config = Config::default();
    config.add_subject("OS", hours(10.0)).unwrap();

    assert_eq!(config.add_schedule("OS", "monday", "10:00", 60), Err(ConfigError::UnknownDay));
    assert_eq!(config.add_schedule("OS", "Mon", "10:00", 60), Err(ConfigError::UnknownDay));
    assert_eq!(config.add_schedule("OS", "", "10:00", 60), Err(ConfigError::UnknownDay));
    assert_eq!(config.add_schedule("OS", "Monday", "1000", 60), Err(ConfigError::MalformedTime));
    assert_eq!(
        config.add_schedule("OS", "Monday", "10:00:00", 60),
        Err(ConfigError::MalformedTime)
    );
    assert_eq!(config.add_schedule("OS", "Monday", "24:00", 60), Err(ConfigError::MalformedTime));
    assert_eq!(config.add_schedule("OS", "Monday", "10:60", 60), Err(ConfigError::MalformedTime));
    assert_eq!(config.add_schedule("OS", "Monday", "9:00", 60), Err(ConfigError::MalformedTime));
    assert_eq!(config.add_schedule("OS", "Monday", "ab:cd", 60), Err(ConfigError::MalformedTime));
    assert_eq!(config.add_schedule("OS", "Monday", "１０:００", 60), Err(ConfigError::MalformedTime));
    assert_eq!(config.add_schedule("OS", "Monday", "10:00", 0), Err(ConfigError::ZeroDuration));
    assert!(ConfigError::UnknownDay.is_validation());
    assert!(ConfigError::MalformedTime.is_validation());
    assert!(ConfigError::ZeroDuration.is_validation());
    assert!(ConfigError::NonPositiveTarget.is_validation());

    assert!(config.schedules.is_empty());
}

#[test]
fn the_day_is_checked_before_the_time() {
    let mut config = Config::default();
    config.add_subject("OS", hours(10.0)).unwrap();
    assert_eq!(config.add_schedule("OS", "ijumaa", "1000", 0), Err(ConfigError::UnknownDay));
    assert_eq!(config.add_schedule("OS", "Sunday", "1000", 0), Err(ConfigError::MalformedTime));
}

#[test]
fn slots_keep_their_order_and_subjects_their_own_lists() {
    let mut config = Config::default();
    config.add_subject("a", hours(1.0)).unwrap();
    config.add_subject("b", hours(1.0)).unwrap();
    config.add_schedule("b", "Sunday", "23:59", 1).unwrap();
    config.add_schedule("a", "Monday", "00:00", 2).unwrap();
    config.add_schedule("b", "Friday", "12:30", 3).unwrap();

    assert_eq!(config.schedules.len(), 2);
    assert_eq!(config.schedules.name_at(0), "b");
    assert_eq!(config.schedules.name_at(1), "a");
    let b = config.schedules.get("b").unwrap();
    assert_eq!(b.len(), 2);
    assert_eq!(b[0].day, "Sunday");
    assert_eq!(b[0].start_time, "23:59");
    assert_eq!(b[0].duration, 1);
    assert_eq!(b[1].day, "Friday");
    assert_eq!(b[1].start_time, "12:30");
    assert_eq!(b[1].duration, 3);
    let a = config.schedules.get("a").unwrap();
    assert_eq!(a.len(), 1);
    assert_eq!(a[0].duration, 2);
}

#[test]
fn overlapping_slots_are_accepted() {
    let mut config = Config::default();
    config.add_subject("a", hours(1.0)).unwrap();
    config.add_subject("b", hours(1.0)).unwrap();
    assert_eq!(config.add_schedule("a", "Monday", "09:00", 60), Ok(()));
    assert_eq!(config.add_schedule("a", "Monday", "09:00", 60), Ok(()));
    assert_eq!(config.add_schedule("b", "Monday", "09:30", 60), Ok(()));
    assert_eq!(config.schedules.get("a").unwrap().len(), 2);
}
