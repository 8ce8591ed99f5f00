use packrip::batch::{run_first_asset_batch, BatchEvent, BatchInput};
use packrip::enumerate::{check_range, enum_step, run_enumeration};
use packrip::errors::{ConfigError, RipError};
use packrip::fetch::{endpoint_fallback, fetch_with_retry, retry_decision, FetchFailure};
use packrip::pack::{Emoji, EmojiPack, Size};
use packrip::resolve::{resolve_size, Resolution};
use packrip::rip::{plan_rip, rip_session, run_rip_downloads};

fn size(w: u16, h: u16) -> Size {
    Size { width: w, height: h }
}

fn emoji(name: &str, id: &str) -> Emoji {
    Emoji {
        name: name.to_string(),
        id: id.to_string(),
    }
}

fn pack(id: u32, mark: &str, imgs: Vec<Emoji>, sizes: Vec<Size>) -> EmojiPack {
    EmojiPack {
        id,
        mark: mark.to_string(),
        imgs,
        supported_sizes: sizes,
    }
}

#[test]
fn resolver_prefers_300_over_200() {
    let p = pack(1, "m", vec![], vec![size(300, 300), size(200, 200)]);
    assert_eq!(resolve_size(&p).unwrap(), Resolution::Square300);
    let reversed = pack(1, "m", vec![], vec![size(200, 200), size(300, 300)]);
    assert_eq!(resolve_size(&reversed).unwrap(), Resolution::Square300);
}

#[test]
fn resolver_falls_back_to_200() {
    let p = pack(1, "m", vec![], vec![size(64, 64), size(200, 200)]);
    assert_eq!(resolve_size(&p).unwrap(), Resolution::Square200);
}

#[test]
fn resolver_fails_loudly_on_unknown_sizes() {
    let p = pack(9, "m", vec![], vec![size(64, 64), size(128, 128)]);
    match resolve_size(&p) {
        Err(RipError::UnsupportedSize { id, sizes }) => {
            assert_eq!(id, 9);
            assert_eq!(sizes, vec![size(64, 64), size(128, 128)]);
        }
        other => panic!("expected UnsupportedSize, got {:?}", other.map(|_| ())),
    }
}

#[test]
fn supports_checks_exact_resolutions() {
    let p = pack(1, "m", vec![], vec![size(300, 300)]);
    assert!(p.supports_300x300());
    assert!(!p.supports_200x200());
    let q = pack(1, "m", vec![], vec![size(300, 200), size(200, 300)]);
    assert!(!q.supports_300x300());
    assert!(!q.supports_200x200());
}

#[test]
fn rip_fails_before_any_download_on_unknown_size() {
    let p = pack(
        7,
        "m",
        vec![emoji("a", "abcdef")],
        vec![size(100, 100)],
    );
    match plan_rip(&p) {
        Err(RipError::UnsupportedSize { id, .. }) => assert_eq!(id, 7),
        other => panic!("expected UnsupportedSize, got {:?}", other.map(|_| ())),
    }
    let results = vec![Err(FetchFailure::ConnectionFailed)];
    match rip_session(&p, &results) {
        Err(RipError::UnsupportedSize { id, .. }) => assert_eq!(id, 7),
        other => panic!("expected UnsupportedSize, got {:?}", other.map(|_| ())),
    }
}

#[test]
fn retry_happens_exactly_once_on_connection_failure() {
    let attempts: Vec<Result<Vec<u8>, FetchFailure>> = vec![
        Err(FetchFailure::ConnectionFailed),
        Err(FetchFailure::ConnectionFailed),
        Ok(vec![1]),
    ];
    let (made, outcome) = fetch_with_retry(&attempts);
    assert_eq!(made, 2);
    assert_eq!(*outcome, Err(FetchFailure::ConnectionFailed));
}

#[test]
fn retry_recovers_when_second_attempt_succeeds() {
    let attempts: Vec<Result<Vec<u8>, FetchFailure>> =
        vec![Err(FetchFailure::Io), Ok(vec![7, 8])];
    let (made, outcome) = fetch_with_retry(&attempts);
    assert_eq!(made, 2);
    assert_eq!(*outcome, Ok(vec![7, 8]));
}

#[test]
fn non_transient_error_triggers_zero_retries() {
    let attempts: Vec<Result<Vec<u8>, FetchFailure>> =
        vec![Err(FetchFailure::HttpStatus(404)), Ok(vec![1])];
    let (made, outcome) = fetch_with_retry(&attempts);
    assert_eq!(made, 1);
    assert_eq!(*outcome, Err(FetchFailure::HttpStatus(404)));
    assert!(!retry_decision::<Vec<u8>>(&Err(FetchFailure::Other)));
    assert!(!retry_decision(&Ok(())));
    assert!(retry_decision::<()>(&Err(FetchFailure::Io)));
}

#[test]
fn successful_rip_writes_one_file_per_image() {
    let p = pack(
        7,
        "Pack",
        vec![emoji("x", "aa11"), emoji("y", "bb22"), emoji("z", "cc33")],
        vec![size(300, 300)],
    );
    let results = vec![Ok(vec![1u8]), Ok(vec![2u8, 2]), Ok(vec![3u8])];
    let (dir, writes) = rip_session(&p, &results).unwrap();
    assert_eq!(dir, "7 - Pack");
    assert_eq!(writes.len(), 3);
    assert_eq!(writes[0].name, "01_x.png");
    assert_eq!(writes[1].name, "02_y.png");
    assert_eq!(writes[2].name, "03_z.png");
    assert_eq!(writes[0].bytes, vec![1u8]);
    assert_eq!(writes[1].bytes, vec![2u8, 2]);
    assert_eq!(writes[2].bytes, vec![3u8]);
}

#[test]
fn rip_aborts_at_first_failed_download() {
    let p = pack(
        3,
        "m",
        vec![emoji("x", "aa11"), emoji("y", "bb22"), emoji("z", "cc33")],
        vec![size(200, 200)],
    );
    let plan = plan_rip(&p).unwrap();
    let results = vec![Ok(vec![1u8]), Err(FetchFailure::Io), Ok(vec![3u8])];
    let (writes, status) = run_rip_downloads(&plan, &results);
    assert_eq!(writes.len(), 1);
    assert_eq!(writes[0].name, "01_x.png");
    match status {
        Err(RipError::DownloadFailed { index, kind }) => {
            assert_eq!(index, 1);
            assert_eq!(kind, FetchFailure::Io);
        }
        other => panic!("expected DownloadFailed, got {:?}", other),
    }
}

#[test]
fn rip_scenario_builds_sharded_url_and_names() {
    let p = pack(
        42,
        "Test",
        vec![emoji("a", "abcdef123")],
        vec![size(200, 200)],
    );
    let plan = plan_rip(&p).unwrap();
    assert_eq!(plan.dir_name, "42 - Test");
    assert_eq!(plan.downloads.len(), 1);
    assert_eq!(
        plan.downloads[0].url,
        "https://i.gtimg.cn/club/item/parcel/item/ab/abcdef123/200x200.png"
    );
    assert_eq!(plan.downloads[0].file_name, "01_a.png");
    let results = vec![Ok(vec![9u8])];
    let (dir, writes) = rip_session(&p, &results).unwrap();
    assert_eq!(dir, "42 - Test");
    assert_eq!(writes.len(), 1);
    assert_eq!(writes[0].name, "01_a.png");
}

#[test]
fn enumeration_skips_failed_ids_and_reaches_end() {
    let both_err = || {
        (
            Err(FetchFailure::HttpStatus(404)),
            Err(FetchFailure::ConnectionFailed),
        )
    };
    let fetches: Vec<(Result<String, FetchFailure>, Result<String, FetchFailure>)> = vec![
        both_err(),
        (Ok("m6".to_string()), Err(FetchFailure::Io)),
        (Err(FetchFailure::Other), Ok("m7".to_string())),
        both_err(),
    ];
    let outputs = run_enumeration(5, 8, &fetches);
    assert_eq!(outputs.len(), 4);
    assert!(outputs[0].is_none());
    assert_eq!(
        outputs[1],
        Some(("6.json".to_string(), "m6".to_string()))
    );
    assert_eq!(
        outputs[2],
        Some(("7.json".to_string(), "m7".to_string()))
    );
    assert!(outputs[3].is_none());
}

#[test]
fn enumeration_prefers_the_primary_endpoint() {
    let r = enum_step(4, &Ok("primary".to_string()), &Ok("secondary".to_string()));
    assert_eq!(r, Some(("4.json".to_string(), "primary".to_string())));
    let primary_failed = Err(FetchFailure::Io);
    let secondary_ok = Ok("secondary".to_string());
    let fallback = endpoint_fallback(&primary_failed, &secondary_ok);
    assert_eq!(*fallback, Ok("secondary".to_string()));
}

#[test]
fn range_is_checked_eagerly() {
    assert!(check_range(3, 5).is_ok());
    assert_eq!(check_range(5, 5), Err(ConfigError::InvalidRange));
    assert_eq!(check_range(7, 3), Err(ConfigError::InvalidRange));
}

#[test]
fn batch_survives_a_pack_with_zero_images() {
    let empty = pack(11, "none", vec![], vec![size(300, 300)]);
    let good = pack(12, "good", vec![emoji("a", "ff00")], vec![size(300, 300)]);
    let items = vec![
        BatchInput::Item(empty, Err(FetchFailure::Other)),
        BatchInput::Item(good, Ok(vec![5u8, 6])),
    ];
    let events = run_first_asset_batch(&items);
    assert_eq!(events.len(), 2);
    match &events[0] {
        BatchEvent::SkippedMissingImage { id } => assert_eq!(*id, 11),
        _ => panic!("expected SkippedMissingImage"),
    }
    match &events[1] {
        BatchEvent::Wrote { name, bytes } => {
            assert_eq!(name, "12.png");
            assert_eq!(*bytes, vec![5u8, 6]);
        }
        _ => panic!("expected Wrote"),
    }
}

#[test]
fn batch_isolates_every_failure_class() {
    let unknown = pack(20, "u", vec![emoji("a", "ab12")], vec![size(50, 50)]);
    let failed = pack(21, "f", vec![emoji("a", "cd34")], vec![size(200, 200)]);
    let good = pack(22, "g", vec![emoji("a", "ef56")], vec![size(200, 200)]);
    let items = vec![
        BatchInput::DecodeFailed,
        BatchInput::Item(unknown, Ok(vec![1u8])),
        BatchInput::Item(failed, Err(FetchFailure::ConnectionFailed)),
        BatchInput::Item(good, Ok(vec![2u8])),
    ];
    let events = run_first_asset_batch(&items);
    assert_eq!(events.len(), 4);
    assert!(matches!(events[0], BatchEvent::SkippedDecode));
    assert!(matches!(
        events[1],
        BatchEvent::SkippedUnsupportedSize { id: 20 }
    ));
    assert!(matches!(
        events[2],
        BatchEvent::SkippedDownload {
            id: 21,
            kind: FetchFailure::ConnectionFailed
        }
    ));
    match &events[3] {
        BatchEvent::Wrote { name, .. } => assert_eq!(name, "22.png"),
        _ => panic!("expected Wrote"),
    }
}
