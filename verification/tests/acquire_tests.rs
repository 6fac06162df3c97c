use bombinger::acquire::{plan_acquisition, target_file_name, AcquireError};
use bombinger::catalog::{latest_videos_query, resolve_catalog, resolve_record, Video, VideoRecord};
use bombinger::config::{Config, Resolution};
use bombinger::time::{TimeError, Timestamp};

fn video() -> Video {
    Video {
        id: "2300-15001".to_string(),
        name: "Quick Look: A/B / C".to_string(),
        publish_date: "2020-01-01 00:00:01".to_string(),
        publish_time: Timestamp { secs: 1577865601, nanos: 0 },
        hd_url: Some("https://v.example/hd.mp4".to_string()),
        high_url: Some("https://v.example/high.mp4".to_string()),
        low_url: None,
        show_title: Some("Quick Looks".to_string()),
    }
}

fn config(resolution: Resolution) -> Config {
    Config {
        library_path: "/library".to_string(),
        checkpoint_time: Timestamp { secs: 0, nanos: 0 },
        api_key: "abc123".to_string(),
        exclude_patterns: vec![],
        locked: true,
        resolution,
        log_path: None,
    }
}

fn record(id: &str, publish_date: &str) -> VideoRecord {
    VideoRecord {
        id: id.to_string(),
        name: format!("name of {}", id),
        publish_date: publish_date.to_string(),
        hd_url: Some(format!("https://v.example/{}/hd", id)),
        high_url: None,
        low_url: Some(format!("https://v.example/{}/low", id)),
        show_title: None,
    }
}

#[test]
fn file_name_joins_the_parts_and_drops_slashes() {
    assert_eq!(
        target_file_name(&video()),
        "2300-15001-2020-01-01 00:00:01-Quick Looks-Quick Look: AB  C.mp4"
    );
}

#[test]
fn file_name_without_a_show_leaves_the_part_empty() {
    let mut v = video();
    v.show_title = None;
    v.name = "Plain".to_string();
    assert_eq!(target_file_name(&v), "2300-15001-2020-01-01 00:00:01--Plain.mp4");
}

#[test]
fn plan_uses_the_configured_tier() {
    let hd = plan_acquisition(&config(Resolution::HD), &video()).unwrap();
    assert_eq!(hd.url, "https://v.example/hd.mp4?api_key=abc123");
    assert_eq!(hd.file_name, "2300-15001-2020-01-01 00:00:01-Quick Looks-Quick Look: AB  C.mp4");
    let high = plan_acquisition(&config(Resolution::High), &video()).unwrap();
    assert_eq!(high.url, "https://v.example/high.mp4?api_key=abc123");
}

#[test]
fn missing_tier_is_not_replaced_by_another() {
    let r = plan_acquisition(&config(Resolution::Low), &video());
    assert!(matches!(r, Err(AcquireError::MissingVariant)));
}

#[test]
fn tier_that_is_offered_as_empty_text_is_still_offered() {
    let mut v = video();
    v.low_url = Some(String::new());
    let plan = plan_acquisition(&config(Resolution::Low), &v).unwrap();
    assert_eq!(plan.url, "?api_key=abc123");
}

#[test]
fn query_asks_for_the_ten_latest() {
    assert_eq!(
        latest_videos_query("abc123"),
        "https://www.giantbomb.com/api/videos/?format=json&limit=10&api_key=abc123"
    );
}

#[test]
fn record_keeps_its_fields_when_resolved() {
    let v = resolve_record(record("a", "2020-01-01 00:00:01")).unwrap();
    assert_eq!(v.id, "a");
    assert_eq!(v.name, "name of a");
    assert_eq!(v.publish_date, "2020-01-01 00:00:01");
    assert_eq!(v.publish_time, Timestamp { secs: 1577865601, nanos: 0 });
    assert_eq!(v.hd_url, Some("https://v.example/a/hd".to_string()));
    assert_eq!(v.high_url, None);
    assert_eq!(v.low_url, Some("https://v.example/a/low".to_string()));
    assert_eq!(v.show_title, None);
}

#[test]
fn catalogue_resolves_in_its_order() {
    let videos = resolve_catalog(vec![
        record("b", "2020-07-01 12:00:00"),
        record("a", "2020-01-01 00:00:00"),
    ])
    .unwrap();
    assert_eq!(videos.len(), 2);
    assert_eq!(videos[0].id, "b");
    assert_eq!(videos[0].publish_time.secs, 1593630000);
    assert_eq!(videos[1].id, "a");
    assert_eq!(videos[1].publish_time.secs, 1577865600);
}

#[test]
fn one_unresolved_record_fails_the_catalogue() {
    let r = resolve_catalog(vec![
        record("a", "2020-01-01 00:00:00"),
        record("fold", "2020-11-01 01:30:00"),
        record("bad", "yesterday"),
    ]);
    assert!(matches!(r, Err(TimeError::Repeated)));
    let r = resolve_catalog(vec![record("bad", "yesterday"), record("gap", "2020-03-08 02:30:00")]);
    assert!(matches!(r, Err(TimeError::Malformed)));
    let r = resolve_record(record("gap", "2020-03-08 02:30:00"));
    assert!(matches!(r, Err(TimeError::Skipped)));
}

#[test]
fn empty_catalogue_resolves_to_nothing() {
    assert!(resolve_catalog(vec![]).unwrap().is_empty());
}

#[test]
fn placeholder_record_is_blank_and_unlocked() {
    let now = Timestamp { secs: 1700000000, nanos: 42 };
    let c = Config::placeholder(now);
    assert_eq!(c.library_path, "");
    assert_eq!(c.api_key, "");
    assert_eq!(c.checkpoint_time, now);
    assert!(c.exclude_patterns.is_empty());
    assert!(!c.locked);
    assert_eq!(c.resolution, Resolution::HD);
    assert_eq!(c.log_path, None);
}

#[test]
fn duplicate_holds_the_same_record() {
    let mut c = config(Resolution::Low);
    c.exclude_patterns = vec!["a".to_string(), "b".to_string()];
    c.log_path = Some("/tmp/log".to_string());
    let d = c.duplicate();
    assert_eq!(d.library_path, c.library_path);
    assert_eq!(d.checkpoint_time, c.checkpoint_time);
    assert_eq!(d.api_key, c.api_key);
    assert_eq!(d.exclude_patterns, c.exclude_patterns);
    assert_eq!(d.locked, c.locked);
    assert_eq!(d.resolution, c.resolution);
    assert_eq!(d.log_path, c.log_path);
}
