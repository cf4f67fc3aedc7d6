use study_timer::clock::{ClockReading, Day, TimeOfDay, LAST_INSTANT_MILLIS};
use study_timer::hours::Hours;
use study_timer::notification::{Notifier, NOTICE_TIMEOUT_MS};
use study_timer::table::Table;
use study_timer::text::{decimal_text, same_text};

#[test]
fn days_are_read_from_their_canonical_names_only() {
    assert_eq!(Day::from_name("Monday"), Some(Day::Monday));
    assert_eq!(Day::from_name("Tuesday"), Some(Day::Tuesday));
    assert_eq!(Day::from_name("Wednesday"), Some(Day::Wednesday));
    assert_eq!(Day::from_name("Thursday"), Some(Day::Thursday));
    assert_eq!(Day::from_name("Friday"), Some(Day::Friday));
    assert_eq!(Day::from_name("Saturday"), Some(Day::Saturday));
    assert_eq!(Day::from_name("Sunday"), Some(Day::Sunday));
    assert_eq!(Day::from_name("monday"), None);
    assert_eq!(Day::from_name("MONDAY"), None);
    assert_eq!(Day::from_name("Mon"), None);
    assert_eq!(Day::from_name("Monday "), None);
    assert_eq!(Day::from_name("ijumaa"), None);
    assert_eq!(Day::from_name(""), None);
}

#[test]
fn each_day_is_named_by_its_own_name() {
    let days = [
        Day::Monday,
        Day::Tuesday,
        Day::Wednesday,
        Day::Thursday,
        Day::Friday,
        Day::Saturday,
        Day::Sunday,
    ];
    for day in days {
        assert_eq!(Day::from_name(day.name()), Some(day));
    }
    assert_eq!(Day::Wednesday.name(), "Wednesday");
}

#[test]
fn times_are_read_from_hh_mm() {
    assert_eq!(TimeOfDay::parse("00:00").unwrap().minutes(), 0);
    assert_eq!(TimeOfDay::parse("09:00").unwrap().minutes(), 540);
    assert_eq!(TimeOfDay::parse("08:55").unwrap().minutes(), 535);
    assert_eq!(TimeOfDay::parse("14:07").unwrap().minutes(), 847);
    assert_eq!(TimeOfDay::parse("23:59").unwrap().minutes(), 1439);
}

#[test]
fn other_texts_name_no_time() {
    let refused = [
        "", "1000", "10:00:00", "24:00", "23:60", "9:00", "09:0", "0900:", ":0900", "09-00",
        "09:00 ", " 09:00", "a9:00", "09:b0", "+9:00", "09:+0", "99:99", "０９:００", "09：00",
        "0é:0",
    ];
    for text in refused {
        assert!(TimeOfDay::parse(text).is_none(), "{}", text);
    }
}

#[test]
fn times_are_built_from_hour_and_minute() {
    assert_eq!(TimeOfDay::new(0, 0).unwrap().minutes(), 0);
    assert_eq!(TimeOfDay::new(9, 5).unwrap().minutes(), 545);
    assert_eq!(TimeOfDay::new(23, 59).unwrap().minutes(), 1439);
    assert!(TimeOfDay::new(24, 0).is_none());
    assert!(TimeOfDay::new(0, 60).is_none());
    assert!(TimeOfDay::new(u32::MAX, u32::MAX).is_none());
}

#[test]
fn the_forward_gap_wraps_at_midnight() {
    let at = |h: u32, m: u32| TimeOfDay::new(h, m).unwrap();
    assert_eq!(at(8, 55).minutes_until(at(9, 0)), 5);
    assert_eq!(at(9, 0).minutes_until(at(9, 0)), 0);
    assert_eq!(at(9, 0).minutes_until(at(8, 55)), 1435);
    assert_eq!(at(23, 57).minutes_until(at(0, 2)), 5);
    assert_eq!(at(0, 0).minutes_until(at(23, 59)), 1439);
    assert_eq!(at(23, 59).minutes_until(at(0, 0)), 1);
}

#[test]
fn the_clock_reading_is_a_time_of_day_near_the_present() {
    let before = chrono::Local::now().timestamp_millis();
    let reading = ClockReading::now();
    let after = chrono::Local::now().timestamp_millis();
    assert!(reading.time.minutes() < 1440);
    assert!(before <= reading.epoch_millis && reading.epoch_millis <= after);
    assert!(0 <= reading.epoch_millis && reading.epoch_millis <= LAST_INSTANT_MILLIS);
    assert_eq!(LAST_INSTANT_MILLIS, 262_144 * 366 * 86_400_000);
    assert!(chrono::DateTime::<chrono::Utc>::MAX_UTC.timestamp_millis() <= LAST_INSTANT_MILLIS);
    assert_eq!(Day::from_name(reading.day.name()), Some(reading.day));
}

#[test]
fn texts_are_compared_character_by_character() {
    assert!(same_text("", ""));
    assert!(same_text("Monday", "Monday"));
    assert!(!same_text("Monday", "Monda"));
    assert!(!same_text("Monday", "Mondaz"));
    assert!(!same_text("monday", "Monday"));
    assert!(same_text("héllo ✓", "héllo ✓"));
    assert!(!same_text("héllo", "hèllo"));
}

#[test]
fn numbers_are_written_in_decimal() {
    assert_eq!(decimal_text(0), "0");
    assert_eq!(decimal_text(7), "7");
    assert_eq!(decimal_text(10), "10");
    assert_eq!(decimal_text(60), "60");
    assert_eq!(decimal_text(105), "105");
    assert_eq!(decimal_text(1_000_000), "1000000");
    assert_eq!(decimal_text(u32::MAX), "4294967295");
}

#[test]
fn hours_are_classified_by_sign() {
    assert!(Hours::from_bits(10.0f32.to_bits()).positive());
    assert!(Hours::from_bits(f32::INFINITY.to_bits()).positive());
    assert!(Hours::from_bits(1).positive());
    assert!(!Hours::from_bits(0.0f32.to_bits()).positive());
    assert!(!Hours::from_bits((-0.0f32).to_bits()).positive());
    assert!(!Hours::from_bits((-5.0f32).to_bits()).positive());
    assert!(!Hours::from_bits(f32::NAN.to_bits()).positive());
    assert!(!Hours::from_bits(0x7f80_0001).positive());
    assert!(!Hours::from_bits(u32::MAX).positive());
    assert_eq!(Hours::zero().to_bits(), 0.0f32.to_bits());
    assert_eq!(Hours::from_bits(0x4120_0000).to_bits(), 10.0f32.to_bits());
}

#[test]
fn a_table_keeps_first_insertion_order() {
    let mut table: Table<u32> = Table::new();
    assert!(table.is_empty());
    assert_eq!(table.len(), 0);
    assert_eq!(table.insert("b", 1), None);
    assert_eq!(table.insert("a", 2), None);
    assert_eq!(table.insert("b", 3), Some(1));
    assert_eq!(table.len(), 2);
    assert!(!table.is_empty());
    assert_eq!(table.name_at(0), "b");
    assert_eq!(table.name_at(1), "a");
    assert_eq!(*table.value_at(0), 3);
    assert_eq!(*table.value_at(1), 2);
    assert_eq!(table.position("a"), Some(1));
    assert_eq!(table.position("c"), None);
    assert_eq!(table.get("b"), Some(&3));
    assert_eq!(table.get("c"), None);
    assert!(table.contains_key("a"));
    assert!(!table.contains_key("A"));
    assert_eq!(table.replace_at(1, 9), 2);
    assert_eq!(table.get("a"), Some(&9));
    assert_eq!(table.name_at(1), "a");
}

#[test]
fn notices_carry_the_clock_icon_and_ten_seconds() {
    let notifier = Notifier::new();
    let notice = notifier.compose("Study Timer", "Time to study Math for 60 minutes");
    assert_eq!(notice.summary, "Study Timer");
    assert_eq!(notice.body, "Time to study Math for 60 minutes");
    assert_eq!(notice.icon, "clock");
    assert_eq!(notice.timeout_ms, 10000);
    assert_eq!(NOTICE_TIMEOUT_MS, 10000);
}
