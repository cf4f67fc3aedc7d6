use study_timer::clock::{Day, TimeOfDay};
use study_timer::config::Config;
use study_timer::hours::Hours;
use study_timer::matcher::{due_alerts, Alert, AlertKind};

fn math_on_monday() -> Config {
    let mut config = Config::default();
    config.add_subject("Math", Hours::from_bits(10.0f32.to_bits())).unwrap();
    config.add_schedule("Math", "Monday", "09:00", 60).unwrap();
    config
}

fn at(hour: u32, minute: u32) -> TimeOfDay {
    TimeOfDay::new(hour, minute).unwrap()
}

fn shown(alerts: &[Alert]) -> Vec<(AlertKind, String, String)> {
    alerts.iter().map(|a| (a.kind, a.subject.clone(), a.message.clone())).collect()
}

#[test]
fn a_slot_that_starts_now_gives_only_that_reminder() {
    let config = math_on_monday();
    let alerts = due_alerts(&config.schedules, Day::Monday, at(9, 0));
    assert_eq!(
        shown(&alerts),
        vec![(
            AlertKind::StartingNow,
            "Math".to_string(),
            "Time to study Math for 60 minutes".to_string()
        )]
    );
}

#[test]
fn a_slot_five_minutes_away_gives_only_the_early_reminder() {
    let config = math_on_monday();
    let alerts = due_alerts(&config.schedules, Day::Monday, at(8, 55));
    assert_eq!(
        shown(&alerts),
        vec![(
            AlertKind::StartingSoon,
            "Math".to_string(),
            "Math study session starts in 5 minutes".to_string()
        )]
    );
}

#[test]
fn a_slot_gives_nothing_at_any_other_minute_of_the_week() {
    let config = math_on_monday();
    let days = [
        Day::Monday,
        Day::Tuesday,
        Day::Wednesday,
        Day::Thursday,
        Day::Friday,
        Day::Saturday,
        Day::Sunday,
    ];
    let mut given = 0;
    for day in days {
        for minute in 0..1440u32 {
            let alerts = due_alerts(&config.schedules, day, at(minute / 60, minute % 60));
            if day == Day::Monday && (minute == 540 || minute == 535) {
                assert_eq!(alerts.len(), 1);
                given += 1;
            } else {
                assert!(alerts.is_empty(), "{:?} {}", day, minute);
            }
        }
    }
    assert_eq!(given, 2);
    assert!(due_alerts(&config.schedules, Day::Monday, at(9, 1)).is_empty());
    assert!(due_alerts(&config.schedules, Day::Monday, at(8, 54)).is_empty());
    assert!(due_alerts(&config.schedules, Day::Monday, at(8, 56)).is_empty());
    assert!(due_alerts(&config.schedules, Day::Tuesday, at(9, 0)).is_empty());
}

#[test]
fn the_early_reminder_counts_minutes_of_the_day_not_of_the_hour() {
    let mut config = Config::default();
    config.add_subject("Art", Hours::from_bits(1.0f32.to_bits())).unwrap();
    config.add_schedule("Art", "Friday", "10:02", 30).unwrap();

    let alerts = due_alerts(&config.schedules, Day::Friday, at(9, 57));
    assert_eq!(alerts.len(), 1);
    assert_eq!(alerts[0].kind, AlertKind::StartingSoon);

    assert!(due_alerts(&config.schedules, Day::Friday, at(8, 57)).is_empty());
    assert!(due_alerts(&config.schedules, Day::Friday, at(10, 57)).is_empty());
    assert!(due_alerts(&config.schedules, Day::Friday, at(11, 57)).is_empty());
}

#[test]
fn the_early_reminder_wraps_at_midnight_within_the_day() {
    let mut config = Config::default();
    config.add_subject("Art", Hours::from_bits(1.0f32.to_bits())).unwrap();
    config.add_schedule("Art", "Friday", "00:02", 30).unwrap();

    let alerts = due_alerts(&config.schedules, Day::Friday, at(23, 57));
    assert_eq!(alerts.len(), 1);
    assert_eq!(alerts[0].kind, AlertKind::StartingSoon);
    assert_eq!(alerts[0].message, "Art study session starts in 5 minutes");
    assert!(due_alerts(&config.schedules, Day::Thursday, at(23, 57)).is_empty());
}

#[test]
fn reminders_come_in_the_order_of_the_timetable() {
    let mut config = Config::default();
    let one = Hours::from_bits(1.0f32.to_bits());
    config.add_subject("Math", one).unwrap();
    config.add_subject("Art", one).unwrap();
    config.add_subject("Law", one).unwrap();
    config.add_schedule("Law", "Monday", "09:05", 15).unwrap();
    config.add_schedule("Math", "Monday", "09:00", 60).unwrap();
    config.add_schedule("Art", "Tuesday", "09:00", 60).unwrap();
    config.add_schedule("Math", "Monday", "09:05", 4294967295).unwrap();
    config.add_schedule("Law", "Monday", "09:00", 7).unwrap();
    config.add_schedule("Math", "Monday", "09:00", 60).unwrap();

    let alerts = due_alerts(&config.schedules, Day::Monday, at(9, 0));
    assert_eq!(
        shown(&alerts),
        vec![
            (
                AlertKind::StartingSoon,
                "Law".to_string(),
                "Law study session starts in 5 minutes".to_string()
            ),
            (
                AlertKind::StartingNow,
                "Law".to_string(),
                "Time to study Law for 7 minutes".to_string()
            ),
            (
                AlertKind::StartingNow,
                "Math".to_string(),
                "Time to study Math for 60 minutes".to_string()
            ),
            (
                AlertKind::StartingSoon,
                "Math".to_string(),
                "Math study session starts in 5 minutes".to_string()
            ),
            (
                AlertKind::StartingNow,
                "Math".to_string(),
                "Time to study Math for 60 minutes".to_string()
            ),
        ]
    );

    let later = due_alerts(&config.schedules, Day::Monday, at(9, 5));
    assert_eq!(
        shown(&later),
        vec![
            (
                AlertKind::StartingNow,
                "Law".to_string(),
                "Time to study Law for 15 minutes".to_string()
            ),
            (
                AlertKind::StartingNow,
                "Math".to_string(),
                "Time to study Math for 4294967295 minutes".to_string()
            ),
        ]
    );
}

#[test]
fn an_empty_timetable_gives_nothing() {
    let config = Config::default();
    assert!(due_alerts(&config.schedules, Day::Monday, at(9, 0)).is_empty());
    let mut config = Config::default();
    config.add_subject("Math", Hours::from_bits(1.0f32.to_bits())).unwrap();
    assert!(due_alerts(&config.schedules, Day::Monday, at(9, 0)).is_empty());
}
