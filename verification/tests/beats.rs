use beats::beat::wrap;
use beats::{Beat, ZonedTime};
use chrono::Timelike;

fn zoned_from_utc(t: chrono::DateTime<chrono::Utc>) -> ZonedTime {
    ZonedTime { hour: t.hour(), minute: t.minute(), second: t.second(), offset: 0 }
}

fn zoned_from_local(t: chrono::DateTime<chrono::Local>) -> ZonedTime {
    ZonedTime {
        hour: t.hour(),
        minute: t.minute(),
        second: t.second(),
        offset: t.offset().local_minus_utc(),
    }
}

#[test]
fn check_wrap() {
    let beat = Beat { trunc: 1000, fract: 1 };

    assert_eq!(wrap(beat), Beat { trunc: 0, fract: 1 });
}

#[test]
fn from_time() {
    assert_eq!(Beat::from(zoned_from_utc(chrono::Utc::now())), Beat::now());
    assert_eq!(Beat::from(zoned_from_local(chrono::Local::now())), Beat::now());
}

#[test]
fn ordering() {
    let beat1 = Beat { trunc: 123, fract: 456 };

    let beat2 = Beat { trunc: 456, fract: 123 };

    assert!(beat1 < beat2);
    assert!(beat2 > beat1);
}

#[test]
fn display() {
    let beat_nopad = Beat { trunc: 123, fract: 123 };

    let beat_leftpad = Beat { trunc: 23, fract: 123 };

    let beat_rightpad = Beat { trunc: 123, fract: 120 };

    let beat_bothpad = Beat { trunc: 23, fract: 120 };

    assert_eq!(beat_nopad.to_string(), "@123.123");
    assert_eq!(beat_leftpad.to_string(), "@023.123");
    assert_eq!(beat_rightpad.to_string(), "@123.120");
    assert_eq!(beat_bothpad.to_string(), "@023.120");
}

#[test]
fn wrap_leaves_small_counts_alone() {
    let beat = Beat { trunc: 999, fract: 500 };

    assert_eq!(wrap(beat), Beat { trunc: 999, fract: 500 });
}

#[test]
fn range_invariant_samples() {
    let minutes_seconds = [(0u32, 0u32), (30, 30), (59, 59)];
    for hour in 0u32..24 {
        for &(minute, second) in minutes_seconds.iter() {
            let b = Beat::from(ZonedTime { hour, minute, second, offset: 0 });
            assert!(b.trunc < 1000);
            assert!(b.fract < 1000);
        }
    }
}

#[test]
fn consistency_across_offsets() {
    // 14:30:00 UTC, written at UTC, at UTC+2 and at UTC-5.
    let utc = Beat::from(ZonedTime { hour: 14, minute: 30, second: 0, offset: 0 });
    let east = Beat::from(ZonedTime { hour: 16, minute: 30, second: 0, offset: 7200 });
    let west = Beat::from(ZonedTime { hour: 9, minute: 30, second: 0, offset: -18000 });

    assert_eq!(utc, east);
    assert_eq!(utc, west);
}

#[test]
fn shift_boundary() {
    // One hour before UTC midnight lies past the Biel midnight, so the
    // raw count of 1020 beats wraps to a small value.
    let b = Beat::from(ZonedTime { hour: 23, minute: 30, second: 0, offset: 0 });

    assert_eq!(b, Beat { trunc: 20, fract: 833 });
    assert_eq!(b.to_string(), "@020.833");
}

#[test]
fn exact_conversion_values() {
    // Midnight UTC is one hour into the Biel day: 3600 / 86.4 beats.
    let utc_midnight = Beat::from(ZonedTime { hour: 0, minute: 0, second: 0, offset: 0 });
    assert_eq!(utc_midnight, Beat { trunc: 41, fract: 667 });
    assert_eq!(utc_midnight.to_string(), "@041.667");

    // Noon UTC: 46800 / 86.4 beats.
    let noon = Beat::from(ZonedTime { hour: 12, minute: 0, second: 0, offset: 0 });
    assert_eq!(noon, Beat { trunc: 541, fract: 667 });

    // 23:00 UTC is exactly midnight in Biel: the day starts over.
    let biel_midnight = Beat::from(ZonedTime { hour: 23, minute: 0, second: 0, offset: 0 });
    assert_eq!(biel_midnight, Beat { trunc: 0, fract: 0 });
    assert_eq!(biel_midnight.to_string(), "@000.000");
}

#[test]
fn equality_is_exact() {
    assert_eq!(Beat { trunc: 123, fract: 456 }, Beat { trunc: 123, fract: 456 });
    assert_ne!(Beat { trunc: 123, fract: 456 }, Beat { trunc: 123, fract: 455 });
    assert_ne!(Beat { trunc: 123, fract: 456 }, Beat { trunc: 124, fract: 456 });
}

#[test]
fn now_renders_in_fixed_format() {
    let text = Beat::now().to_string();
    let bytes = text.as_bytes();

    assert_eq!(bytes.len(), 8);
    assert_eq!(bytes[0], b'@');
    assert_eq!(bytes[4], b'.');
    for &i in [1usize, 2, 3, 5, 6, 7].iter() {
        assert!(bytes[i].is_ascii_digit());
    }
}
