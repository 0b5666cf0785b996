use slidemeta::codec::encode_cache_entry;
use slidemeta::errors::ResolveError;
use slidemeta::exif::{ExifOutcome, ExifRecord, ExifTagKind};
use slidemeta::meta::ImageMetadata;
use slidemeta::resolve::{
    next_action, resolve_step, start_resolution, EpochTime, RawTimes, ResolveAction,
    ResolveEvent, ResolveState,
};
use slidemeta::time::{earliest_candidate, CivilDateTime};

fn dt(year: i32, month: u8, day: u8, hour: u8, minute: u8, second: u8, nano: u32) -> CivilDateTime {
    CivilDateTime { year, month, day, hour, minute, second, nano }
}

fn exif_time(tag: ExifTagKind, t: CivilDateTime) -> ExifRecord {
    ExifRecord { tag: Some(tag), has_value: true, time: Some(t), raw: Vec::new() }
}

fn await_exif(fs_times: Vec<CivilDateTime>) -> ResolveState {
    ResolveState::AwaitExif { path: b"photos/a.jpg".to_vec(), fs_times }
}

#[test]
fn cache_hit_short_circuits() {
    let m = ImageMetadata {
        path: b"photos/a.jpg".to_vec(),
        width: 800,
        height: 600,
        creation: dt(2020, 1, 1, 10, 0, 0, 0),
    };
    let entry = encode_cache_entry(&m);
    let s = start_resolution(b"photos/a.jpg".to_vec());
    assert_eq!(next_action(&s), ResolveAction::LookupCache);
    let s = resolve_step(s, ResolveEvent::Cache { entry: Some(entry) });
    // the cached record comes back unchanged and the protocol is over:
    // no stat, EXIF read, decode or store happens for this path
    assert_eq!(next_action(&s), ResolveAction::Finish);
    match s {
        ResolveState::Done { result: Ok(got) } => {
            assert_eq!(got.path, m.path);
            assert_eq!(got.width, 800);
            assert_eq!(got.height, 600);
            assert_eq!(got.creation, m.creation);
        },
        _ => panic!("expected a successful resolution"),
    }
}

#[test]
fn cache_miss_proceeds_to_stat() {
    let s = start_resolution(b"photos/a.jpg".to_vec());
    let s = resolve_step(s, ResolveEvent::Cache { entry: None });
    assert_eq!(next_action(&s), ResolveAction::StatFile);
}

#[test]
fn malformed_cache_entry_is_a_miss() {
    let s = start_resolution(b"photos/a.jpg".to_vec());
    let s = resolve_step(s, ResolveEvent::Cache { entry: Some(vec![1u8, 2, 3]) });
    assert_eq!(next_action(&s), ResolveAction::StatFile);
}

#[test]
fn earliest_candidate_wins() {
    // filesystem creation T1, modification T2, EXIF dates T3 and T4:
    // the resolved creation time is the minimum of the four
    let t1 = dt(2020, 5, 1, 0, 0, 0, 0);
    let t2 = dt(2019, 6, 15, 8, 30, 0, 0);
    let t3 = dt(2021, 3, 3, 0, 0, 0, 0);
    let t4 = dt(2019, 6, 15, 8, 29, 59, 999_999_999);
    let s = await_exif(vec![t1, t2]);
    let records = vec![
        exif_time(ExifTagKind::DateTimeOriginal, t3),
        exif_time(ExifTagKind::CreateDate, t4),
    ];
    let s = resolve_step(
        s,
        ResolveEvent::Exif { outcome: ExifOutcome::Parsed { records } },
    );
    match s {
        ResolveState::AwaitDecode { creation, .. } => assert_eq!(creation, t4),
        _ => panic!("expected to await the decode"),
    }
}

#[test]
fn exif_parse_failure_falls_back_to_filesystem_times() {
    let t1 = dt(2020, 5, 1, 0, 0, 0, 0);
    let t2 = dt(2019, 6, 15, 8, 30, 0, 0);
    let s = await_exif(vec![t1, t2]);
    let s = resolve_step(s, ResolveEvent::Exif { outcome: ExifOutcome::ParseFailed });
    match s {
        ResolveState::AwaitDecode { creation, .. } => assert_eq!(creation, t2),
        _ => panic!("a corrupt EXIF block must not be fatal"),
    }
}

#[test]
fn no_candidate_at_all_fails() {
    let s = await_exif(Vec::new());
    let s = resolve_step(s, ResolveEvent::Exif { outcome: ExifOutcome::NoExif });
    match s {
        ResolveState::Done { result: Err(ResolveError::NoCreationDate) } => {},
        _ => panic!("expected the missing-creation-date error"),
    }
    // and the protocol ended without reaching the cache-store stage
}

#[test]
fn exif_entry_without_value_is_fatal() {
    let t1 = dt(2020, 5, 1, 0, 0, 0, 0);
    let records = vec![ExifRecord {
        tag: Some(ExifTagKind::Other),
        has_value: false,
        time: None,
        raw: Vec::new(),
    }];
    let s = await_exif(vec![t1]);
    let s = resolve_step(
        s,
        ResolveEvent::Exif { outcome: ExifOutcome::Parsed { records } },
    );
    match s {
        ResolveState::Done { result: Err(ResolveError::ExifValue) } => {},
        _ => panic!("expected the missing-value error"),
    }
}

#[test]
fn unparseable_exif_time_is_fatal() {
    let t1 = dt(2020, 5, 1, 0, 0, 0, 0);
    let records = vec![ExifRecord {
        tag: Some(ExifTagKind::ModifyDate),
        has_value: true,
        time: None,
        raw: b"not-a-time".to_vec(),
    }];
    let s = await_exif(vec![t1]);
    let s = resolve_step(
        s,
        ResolveEvent::Exif { outcome: ExifOutcome::Parsed { records } },
    );
    match s {
        ResolveState::Done { result: Err(ResolveError::ExifTime { tag, raw }) } => {
            assert_eq!(tag, ExifTagKind::ModifyDate);
            assert_eq!(raw, b"not-a-time".to_vec());
        },
        _ => panic!("expected the unparseable-time error"),
    }
}

#[test]
fn unknown_and_unrelated_tags_are_skipped() {
    let t1 = dt(2020, 5, 1, 0, 0, 0, 0);
    let t3 = dt(2018, 1, 1, 0, 0, 0, 0);
    let records = vec![
        ExifRecord { tag: None, has_value: true, time: None, raw: Vec::new() },
        ExifRecord { tag: Some(ExifTagKind::Other), has_value: true, time: None, raw: Vec::new() },
        exif_time(ExifTagKind::CreateDate, t3),
    ];
    let s = await_exif(vec![t1]);
    let s = resolve_step(
        s,
        ResolveEvent::Exif { outcome: ExifOutcome::Parsed { records } },
    );
    match s {
        ResolveState::AwaitDecode { creation, .. } => assert_eq!(creation, t3),
        _ => panic!("expected to await the decode"),
    }
}

#[test]
fn stat_failure_is_fatal() {
    let s = ResolveState::AwaitStat { path: b"p".to_vec() };
    let s = resolve_step(s, ResolveEvent::Stat { times: None });
    match s {
        ResolveState::Done { result: Err(ResolveError::Io) } => {},
        _ => panic!("expected the read error"),
    }
}

#[test]
fn oversized_epoch_seconds_fail_conversion() {
    let s = ResolveState::AwaitStat { path: b"p".to_vec() };
    let times = RawTimes {
        created: Some(EpochTime { secs: u64::MAX, nanos: 0 }),
        modified: Some(EpochTime { secs: 0, nanos: 0 }),
    };
    let s = resolve_step(s, ResolveEvent::Stat { times: Some(times) });
    match s {
        ResolveState::Done { result: Err(ResolveError::SystemTime) } => {},
        _ => panic!("expected the time-conversion error"),
    }
}

#[test]
fn ordinary_stat_times_yield_two_candidates() {
    let s = ResolveState::AwaitStat { path: b"p".to_vec() };
    let times = RawTimes {
        created: Some(EpochTime { secs: 1_600_000_000, nanos: 0 }),
        modified: Some(EpochTime { secs: 1_500_000_000, nanos: 500 }),
    };
    let s = resolve_step(s, ResolveEvent::Stat { times: Some(times) });
    match s {
        ResolveState::AwaitExif { fs_times, .. } => {
            assert_eq!(fs_times.len(), 2);
            // September 2020 and July 2017 UTC: no time zone moves either
            // across a year boundary
            assert_eq!(fs_times[0].year, 2020);
            assert_eq!(fs_times[1].year, 2017);
        },
        _ => panic!("expected to await the EXIF read"),
    }
}

#[test]
fn pre_epoch_timestamp_fails_conversion() {
    let s = ResolveState::AwaitStat { path: b"p".to_vec() };
    let times = RawTimes {
        created: None,
        modified: Some(EpochTime { secs: 1_600_000_000, nanos: 0 }),
    };
    let s = resolve_step(s, ResolveEvent::Stat { times: Some(times) });
    match s {
        ResolveState::Done { result: Err(ResolveError::SystemTime) } => {},
        _ => panic!("expected the time-conversion error"),
    }
}

#[test]
fn seconds_at_the_calendar_edge_fail_conversion() {
    let s = ResolveState::AwaitStat { path: b"p".to_vec() };
    let times = RawTimes {
        created: Some(EpochTime { secs: 253_402_300_800, nanos: 0 }),
        modified: Some(EpochTime { secs: 0, nanos: 0 }),
    };
    let s = resolve_step(s, ResolveEvent::Stat { times: Some(times) });
    match s {
        ResolveState::Done { result: Err(ResolveError::SystemTime) } => {},
        _ => panic!("expected the time-conversion error"),
    }
}

#[test]
fn decode_failure_is_fatal() {
    let s = ResolveState::AwaitDecode {
        path: b"p".to_vec(),
        creation: dt(2020, 1, 1, 0, 0, 0, 0),
    };
    let s = resolve_step(s, ResolveEvent::Decode { dims: None });
    match s {
        ResolveState::Done { result: Err(ResolveError::Decode) } => {},
        _ => panic!("expected the decode error"),
    }
}

#[test]
fn zero_dimensions_are_rejected() {
    let s = ResolveState::AwaitDecode {
        path: b"p".to_vec(),
        creation: dt(2020, 1, 1, 0, 0, 0, 0),
    };
    let s = resolve_step(s, ResolveEvent::Decode { dims: Some((0, 600)) });
    match s {
        ResolveState::Done { result: Err(ResolveError::Decode) } => {},
        _ => panic!("expected the decode error"),
    }
}

#[test]
fn successful_decode_then_store_finishes() {
    let creation = dt(2019, 6, 15, 8, 30, 0, 0);
    let s = ResolveState::AwaitDecode { path: b"photos/b.jpg".to_vec(), creation };
    let s = resolve_step(s, ResolveEvent::Decode { dims: Some((1920, 1080)) });
    assert_eq!(next_action(&s), ResolveAction::StoreEntry);
    let s = resolve_step(s, ResolveEvent::Stored { ok: true });
    match s {
        ResolveState::Done { result: Ok(m) } => {
            assert_eq!(m.path, b"photos/b.jpg".to_vec());
            assert_eq!(m.width, 1920);
            assert_eq!(m.height, 1080);
            assert_eq!(m.creation, creation);
        },
        _ => panic!("expected a successful resolution"),
    }
}

#[test]
fn failed_store_is_fatal() {
    let m = ImageMetadata {
        path: b"p".to_vec(),
        width: 1,
        height: 1,
        creation: dt(2020, 1, 1, 0, 0, 0, 0),
    };
    let s = ResolveState::AwaitStore { meta: m };
    let s = resolve_step(s, ResolveEvent::Stored { ok: false });
    match s {
        ResolveState::Done { result: Err(ResolveError::Io) } => {},
        _ => panic!("expected the write error"),
    }
}

#[test]
fn mismatched_event_changes_nothing() {
    let s = start_resolution(b"p".to_vec());
    let s = resolve_step(s, ResolveEvent::Stored { ok: true });
    assert_eq!(next_action(&s), ResolveAction::LookupCache);
}

#[test]
fn earliest_of_no_candidates_is_none() {
    assert!(earliest_candidate(&Vec::new()).is_none());
    let t = dt(2020, 1, 1, 0, 0, 0, 0);
    assert_eq!(earliest_candidate(&vec![t]), Some(t));
    assert_eq!(earliest_candidate(&vec![t, t]), Some(t));
}
