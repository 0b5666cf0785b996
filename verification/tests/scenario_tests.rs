use slidemeta::errors::ResolveError;
use slidemeta::exif::{ExifOutcome, ExifRecord, ExifTagKind};
use slidemeta::meta::ImageMetadata;
use slidemeta::playlist::playlist_line;
use slidemeta::resolve::{resolve_step, ResolveEvent, ResolveState};
use slidemeta::time::{creation_date_in_range, CivilDate, CivilDateTime};

fn dt(year: i32, month: u8, day: u8) -> CivilDateTime {
    CivilDateTime { year, month, day, hour: 0, minute: 0, second: 0, nano: 0 }
}

fn exif_time(tag: ExifTagKind, t: CivilDateTime) -> ExifRecord {
    ExifRecord { tag: Some(tag), has_value: true, time: Some(t), raw: Vec::new() }
}

/// Runs one path through the resolution protocol on a cache miss, with the
/// given synthetic filesystem times, EXIF outcome and decoded dimensions.
fn resolve(
    path: &str,
    fs_times: Vec<CivilDateTime>,
    outcome: ExifOutcome,
    dims: (u32, u32),
) -> Result<ImageMetadata, ResolveError> {
    let s = ResolveState::AwaitExif { path: path.as_bytes().to_vec(), fs_times };
    let s = resolve_step(s, ResolveEvent::Exif { outcome });
    let s = resolve_step(s, ResolveEvent::Decode { dims: Some(dims) });
    let s = resolve_step(s, ResolveEvent::Stored { ok: true });
    match s {
        ResolveState::Done { result } => result,
        _ => panic!("the protocol did not finish"),
    }
}

#[test]
fn three_image_slideshow_selection() {
    // a.jpg: EXIF date 2020-01-01, 800x600; filesystem times later
    let a = resolve(
        "a.jpg",
        vec![dt(2020, 6, 1), dt(2020, 6, 1)],
        ExifOutcome::Parsed {
            records: vec![exif_time(ExifTagKind::DateTimeOriginal, dt(2020, 1, 1))],
        },
        (800, 600),
    )
    .expect("a.jpg resolves");
    // b.jpg: no EXIF, filesystem modification 2019-06-15, 1920x1080
    let b = resolve(
        "b.jpg",
        vec![dt(2019, 7, 1), dt(2019, 6, 15)],
        ExifOutcome::NoExif,
        (1920, 1080),
    )
    .expect("b.jpg resolves");
    // c.jpg: EXIF dates 2021-03-03 and 2021-03-01, 1024x768
    let c = resolve(
        "c.jpg",
        vec![dt(2021, 5, 5), dt(2021, 5, 5)],
        ExifOutcome::Parsed {
            records: vec![
                exif_time(ExifTagKind::DateTimeOriginal, dt(2021, 3, 3)),
                exif_time(ExifTagKind::CreateDate, dt(2021, 3, 1)),
            ],
        },
        (1024, 768),
    )
    .expect("c.jpg resolves");

    assert_eq!(a.creation, dt(2020, 1, 1));
    assert_eq!(b.creation, dt(2019, 6, 15));
    assert_eq!(c.creation, dt(2021, 3, 1));

    // the caller's filters: creation date within [2019-01-01, 2020-12-31]
    // and aspect ratio within [1.0, 2.0]
    let min_date = CivilDate { year: 2019, month: 1, day: 1 };
    let max_date = CivilDate { year: 2020, month: 12, day: 31 };
    let mut playlist: Vec<u8> = Vec::new();
    for m in [&a, &b, &c] {
        if !creation_date_in_range(&m.creation, &min_date, &max_date) {
            continue;
        }
        let aspect = m.width as f64 / m.height as f64;
        if aspect < 1.0 || aspect > 2.0 {
            continue;
        }
        playlist.extend_from_slice(&playlist_line(&m.path));
    }
    // a.jpg (1.33) and b.jpg (1.78) qualify; c.jpg's 2021-03-01 is out of range
    assert_eq!(String::from_utf8(playlist).unwrap(), "\"a.jpg\"\n\"b.jpg\"\n");
}

#[test]
fn date_range_bounds_are_inclusive() {
    let min_date = CivilDate { year: 2019, month: 1, day: 1 };
    let max_date = CivilDate { year: 2020, month: 12, day: 31 };
    assert!(creation_date_in_range(&dt(2019, 1, 1), &min_date, &max_date));
    assert!(creation_date_in_range(&dt(2020, 12, 31), &min_date, &max_date));
    assert!(!creation_date_in_range(&dt(2018, 12, 31), &min_date, &max_date));
    assert!(!creation_date_in_range(&dt(2021, 1, 1), &min_date, &max_date));
}
