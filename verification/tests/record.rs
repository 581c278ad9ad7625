use current_weather::compass::Compass16;
use current_weather::error::RecordError;
use current_weather::record::{CurrentCondition, CurrentReport, CurrentWeatherHeader};
use std::time::{Duration, SystemTime, UNIX_EPOCH};

fn report(wind_dir: &str, condition: Option<CurrentCondition>) -> CurrentReport {
    CurrentReport {
        last_updated_epoch: 1737504000,
        last_updated: "2026-01-22 00:00".to_string(),
        is_day: 1,
        condition,
        wind_dir: wind_dir.to_string(),
    }
}

fn is_v4_uuid(s: &str) -> bool {
    let chars: Vec<char> = s.chars().collect();
    chars.len() == 36
        && chars.iter().enumerate().all(|(i, c)| {
            if [8, 13, 18, 23].contains(&i) {
                *c == '-'
            } else {
                c.is_ascii_digit() || ('a'..='f').contains(c)
            }
        })
        && chars[14] == '4'
        && "89ab".contains(chars[19])
}

#[test]
fn header_from_parts_copies_report() {
    let time = UNIX_EPOCH + Duration::from_secs(42);
    let condition = CurrentCondition {
        text: "Sunny".to_string(),
        icon: "//cdn/113.png".to_string(),
        code: 1000,
    };
    let header =
        CurrentWeatherHeader::from_parts(report("wSw", Some(condition)), "test-id".to_string(), time)
            .unwrap();
    assert_eq!(header.id, "test-id");
    assert_eq!(header.time, time);
    assert_eq!(header.last_updated_epoch, 1737504000);
    assert_eq!(header.last_updated, "2026-01-22 00:00");
    assert_eq!(header.is_day, 1);
    assert_eq!(header.condition_id, Some(1000));
    assert_eq!(header.wind_dir, Compass16::WSW);
}

#[test]
fn header_without_condition() {
    let header =
        CurrentWeatherHeader::from_parts(report("NE", None), "x".to_string(), UNIX_EPOCH).unwrap();
    assert_eq!(header.condition_id, None);
    assert_eq!(header.wind_dir, Compass16::NE);
}

#[test]
fn header_rejects_unknown_direction() {
    match CurrentWeatherHeader::from_parts(report("Variable", None), "x".to_string(), UNIX_EPOCH) {
        Err(RecordError::CompassError(m)) => {
            assert_eq!(m, "Cannot recognize wind direction from value Variable")
        }
        _ => panic!("expected a compass error"),
    }
}

#[test]
fn stamp_makes_fresh_ids_and_times() {
    let before = SystemTime::now();
    let a = CurrentWeatherHeader::stamp(report("S", None)).unwrap();
    let b = CurrentWeatherHeader::stamp(report("s", None)).unwrap();
    let after = SystemTime::now();
    assert!(is_v4_uuid(&a.id), "{}", a.id);
    assert!(is_v4_uuid(&b.id), "{}", b.id);
    assert_ne!(a.id, b.id);
    assert!(before <= a.time && a.time <= b.time && b.time <= after);
    assert_eq!(a.wind_dir, Compass16::S);
    assert_eq!(b.wind_dir, Compass16::S);
}

#[test]
fn stamp_rejects_unknown_direction() {
    assert!(matches!(
        CurrentWeatherHeader::stamp(report("NNNW", None)),
        Err(RecordError::CompassError(_))
    ));
}
