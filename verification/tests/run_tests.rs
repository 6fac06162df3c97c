use bombinger::catalog::VideoRecord;
use bombinger::config::{Config, Resolution};
use bombinger::run::{Action, Event, Failure, Outcome, Phase, Run};
use bombinger::time::{TimeError, Timestamp};

// 2020-01-01 00:00:00 on a Pacific wall clock.
const T0: i64 = 1577865600;

fn at(secs: i64) -> Timestamp {
    Timestamp { secs, nanos: 0 }
}

fn config(log_path: Option<&str>) -> Config {
    Config {
        library_path: "/library".to_string(),
        checkpoint_time: at(T0),
        api_key: "abc123".to_string(),
        exclude_patterns: vec!["Premium".to_string()],
        locked: false,
        resolution: Resolution::HD,
        log_path: log_path.map(|s| s.to_string()),
    }
}

fn record(id: &str, name: &str, publish_date: &str) -> VideoRecord {
    VideoRecord {
        id: id.to_string(),
        name: name.to_string(),
        publish_date: publish_date.to_string(),
        hd_url: Some(format!("https://v.example/{}.mp4", id)),
        high_url: None,
        low_url: None,
        show_title: None,
    }
}

// Three videos published one, two and three seconds after T0, newest first.
fn three_new() -> Vec<VideoRecord> {
    vec![
        record("3", "Third", "2020-01-01 00:00:03"),
        record("2", "Second", "2020-01-01 00:00:02"),
        record("1", "First", "2020-01-01 00:00:01"),
    ]
}

// The record that the run asks to persist.
fn persisted(action: Action) -> Config {
    match action {
        Action::Persist { config } => config,
        other => panic!("{:?}", other),
    }
}

fn expect_persist(action: Action) {
    persisted(action);
}

fn expect_request(action: Action, url: &str) {
    match action {
        Action::Request { url: got } => assert_eq!(got, url),
        other => panic!("{:?}", other),
    }
}

fn expect_create(action: Action, file_name: &str) {
    match action {
        Action::Create { directory, file_name: got } => {
            assert_eq!(directory, "/library");
            assert_eq!(got, file_name);
        },
        other => panic!("{:?}", other),
    }
}

// Starts a run on an unlocked record and brings it to the arrival of the catalogue.
fn run_with_catalog(cfg: Config, now: Timestamp, records: Vec<VideoRecord>) -> (Run, Action) {
    let before = cfg.checkpoint_time;
    let (mut run, action) = Run::start(Some(cfg), now);
    let locked = persisted(action);
    assert!(locked.locked);
    assert_eq!(locked.checkpoint_time, before);
    assert_eq!(locked.api_key, "abc123");
    assert_eq!(locked.library_path, "/library");
    assert_eq!(locked.exclude_patterns, vec!["Premium"]);
    assert_eq!(run.phase(), Phase::Locking);
    assert!(run.config().locked);
    match run.step(Event::Succeeded) {
        Action::Fetch { url } => assert_eq!(
            url,
            "https://www.giantbomb.com/api/videos/?format=json&limit=10&api_key=abc123"
        ),
        other => panic!("{:?}", other),
    }
    assert_eq!(run.phase(), Phase::Fetching);
    let action = run.step(Event::Catalog(records));
    (run, action)
}

// Downloads the current video without trouble, up to the persisted checkpoint.
fn download(run: &mut Run, file_name: &str) -> Action {
    expect_create(run.step(Event::Succeeded), file_name);
    assert!(!run.partial_file());
    assert!(matches!(run.step(Event::Succeeded), Action::Stream));
    assert!(run.partial_file());
    let advanced = persisted(run.step(Event::Succeeded));
    assert!(advanced.locked);
    assert_eq!(advanced.checkpoint_time, run.config().checkpoint_time);
    assert!(!run.partial_file());
    assert_eq!(run.phase(), Phase::Advancing);
    assert!(run.config().locked);
    run.step(Event::Succeeded)
}

#[test]
fn held_lock_skips_the_run() {
    let mut cfg = config(Some("/log"));
    cfg.locked = true;
    let (mut run, action) = Run::start(Some(cfg), at(T0 + 100));
    assert!(matches!(action, Action::Report(Outcome::AlreadyRunning)));
    assert_eq!(run.phase(), Phase::Skipped);
    assert!(run.is_over());
    assert!(run.config().locked);
    assert_eq!(run.config().checkpoint_time, at(T0));
    let events = vec![
        Event::Succeeded,
        Event::Failed,
        Event::Catalog(three_new()),
        Event::LogContent(None),
        Event::Succeeded,
    ];
    for event in events {
        assert!(matches!(run.step(event), Action::Ignore));
        assert_eq!(run.phase(), Phase::Skipped);
        assert!(run.config().locked);
        assert_eq!(run.config().checkpoint_time, at(T0));
        assert_eq!(run.downloaded(), 0);
    }
}

#[test]
fn first_use_writes_the_placeholder_and_stops() {
    let now = Timestamp { secs: T0 + 5, nanos: 7 };
    let (mut run, action) = Run::start(None, now);
    let template = persisted(action);
    assert_eq!(template.api_key, "");
    assert_eq!(template.library_path, "");
    assert_eq!(template.checkpoint_time, now);
    assert!(!template.locked);
    assert!(template.exclude_patterns.is_empty());
    assert_eq!(template.resolution, Resolution::HD);
    assert_eq!(template.log_path, None);
    assert_eq!(run.phase(), Phase::Bootstrapping);
    assert_eq!(run.config().api_key, "");
    assert_eq!(run.config().library_path, "");
    assert_eq!(run.config().checkpoint_time, now);
    assert!(!run.config().locked);
    assert!(matches!(run.step(Event::Succeeded), Action::Report(Outcome::NotConfigured)));
    assert_eq!(run.phase(), Phase::Unconfigured);
    assert!(matches!(run.step(Event::Succeeded), Action::Ignore));
}

#[test]
fn first_use_halts_when_the_placeholder_cannot_be_written() {
    let (mut run, _) = Run::start(None, at(T0));
    assert!(matches!(run.step(Event::Failed), Action::Report(Outcome::Halted)));
    assert_eq!(run.phase(), Phase::Halted);
}

#[test]
fn three_new_videos_are_downloaded_oldest_first() {
    let now = at(T0 + 100);
    let (mut run, action) = run_with_catalog(config(Some("/log")), now, three_new());
    assert_eq!(run.queued(), 3);
    assert_eq!(run.started_at(), now);

    expect_request(action, "https://v.example/1.mp4?api_key=abc123");
    let action = download(&mut run, "1-2020-01-01 00:00:01--First.mp4");
    assert_eq!(run.config().checkpoint_time, at(T0 + 1));
    assert_eq!(run.downloaded(), 1);

    expect_request(action, "https://v.example/2.mp4?api_key=abc123");
    let action = download(&mut run, "2-2020-01-01 00:00:02--Second.mp4");
    assert_eq!(run.config().checkpoint_time, at(T0 + 2));

    expect_request(action, "https://v.example/3.mp4?api_key=abc123");
    let action = download(&mut run, "3-2020-01-01 00:00:03--Third.mp4");
    assert_eq!(run.config().checkpoint_time, at(T0 + 3));
    assert_eq!(run.downloaded(), 3);
    assert_eq!(run.acquired_titles(), vec!["First", "Second", "Third"]);

    match action {
        Action::ReadLog { path } => assert_eq!(path, "/log"),
        other => panic!("{:?}", other),
    }
    match run.step(Event::LogContent(None)) {
        Action::WriteLog { path, text } => {
            assert_eq!(path, "/log");
            assert_eq!(text, "Third\nSecond\nFirst\n");
        },
        other => panic!("{:?}", other),
    }
    let last = persisted(run.step(Event::Succeeded));
    assert_eq!(last.checkpoint_time, now);
    assert!(!last.locked);
    assert_eq!(run.phase(), Phase::Finishing);
    assert_eq!(run.config().checkpoint_time, now);
    assert!(run.config().checkpoint_time.after(&at(T0 + 3)));
    assert!(!run.config().locked);

    match run.step(Event::Succeeded) {
        Action::Report(Outcome::Finished { downloaded }) => assert_eq!(downloaded, 3),
        other => panic!("{:?}", other),
    }
    assert_eq!(run.phase(), Phase::Finished);
    assert!(run.is_over());
    assert_eq!(run.failure(), None);
    assert!(!run.config().locked);
    assert_eq!(run.config().checkpoint_time, now);
}

#[test]
fn broken_transfer_removes_the_file_and_aborts() {
    let (mut run, action) = run_with_catalog(config(Some("/log")), at(T0 + 100), three_new());
    let mut created: Vec<String> = Vec::new();
    let mut removed: Vec<String> = Vec::new();

    expect_request(action, "https://v.example/1.mp4?api_key=abc123");
    created.push("1-2020-01-01 00:00:01--First.mp4".to_string());
    let action = download(&mut run, "1-2020-01-01 00:00:01--First.mp4");

    expect_request(action, "https://v.example/2.mp4?api_key=abc123");
    expect_create(run.step(Event::Succeeded), "2-2020-01-01 00:00:02--Second.mp4");
    created.push("2-2020-01-01 00:00:02--Second.mp4".to_string());
    assert!(matches!(run.step(Event::Succeeded), Action::Stream));
    match run.step(Event::Failed) {
        Action::Remove { directory, file_name } => {
            assert_eq!(directory, "/library");
            removed.push(file_name);
        },
        other => panic!("{:?}", other),
    }
    assert_eq!(run.phase(), Phase::Removing);
    assert!(run.partial_file());
    assert!(run.config().locked);

    let released = persisted(run.step(Event::Succeeded));
    assert!(!released.locked);
    assert_eq!(released.checkpoint_time, at(T0 + 1));
    assert_eq!(run.phase(), Phase::Aborting);
    assert!(!run.partial_file());
    assert!(!run.config().locked);

    match run.step(Event::Succeeded) {
        Action::Report(Outcome::Aborted { failure, item }) => {
            assert_eq!(failure, Failure::Transfer);
            assert_eq!(item, Some("Second".to_string()));
        },
        other => panic!("{:?}", other),
    }
    assert_eq!(run.phase(), Phase::Aborted);
    assert!(run.is_over());
    assert!(!run.config().locked);
    assert_eq!(run.downloaded(), 1);
    // The checkpoint stays at the one video that is on disk.
    assert_eq!(run.config().checkpoint_time, at(T0 + 1));

    created.retain(|name| !removed.contains(name));
    assert_eq!(created, vec!["1-2020-01-01 00:00:01--First.mp4"]);
    assert!(matches!(run.step(Event::Succeeded), Action::Ignore));
}

#[test]
fn failure_of_the_first_video_leaves_the_checkpoint_alone() {
    let (mut run, action) = run_with_catalog(config(None), at(T0 + 100), three_new());
    expect_request(action, "https://v.example/1.mp4?api_key=abc123");
    let released = persisted(run.step(Event::Failed));
    assert!(!released.locked);
    assert_eq!(released.checkpoint_time, at(T0));
    assert_eq!(run.phase(), Phase::Aborting);
    match run.step(Event::Succeeded) {
        Action::Report(Outcome::Aborted { failure, item }) => {
            assert_eq!(failure, Failure::Request);
            assert_eq!(item, Some("First".to_string()));
        },
        other => panic!("{:?}", other),
    }
    assert_eq!(run.config().checkpoint_time, at(T0));
    assert!(!run.config().locked);
    assert_eq!(run.downloaded(), 0);
}

#[test]
fn excluded_video_is_never_requested() {
    let records = vec![
        record("9", "Premium Podcast", "2020-01-01 00:00:09"),
        record("5", "Open Podcast", "2020-01-01 00:00:05"),
    ];
    let (mut run, action) = run_with_catalog(config(None), at(T0 + 100), records);
    assert_eq!(run.queued(), 1);
    expect_request(action, "https://v.example/5.mp4?api_key=abc123");
    let action = download(&mut run, "5-2020-01-01 00:00:05--Open Podcast.mp4");
    expect_persist(action);
    assert_eq!(run.phase(), Phase::Finishing);
    match run.step(Event::Succeeded) {
        Action::Report(Outcome::Finished { downloaded }) => assert_eq!(downloaded, 1),
        other => panic!("{:?}", other),
    }
    assert_eq!(run.acquired_titles(), vec!["Open Podcast"]);
}

#[test]
fn video_at_the_checkpoint_is_not_new() {
    let records = vec![
        record("1", "After", "2020-01-01 00:00:01"),
        record("0", "At", "2020-01-01 00:00:00"),
        record("x", "Before", "2019-12-31 23:59:59"),
    ];
    let (run, action) = run_with_catalog(config(None), at(T0 + 100), records);
    assert_eq!(run.queued(), 1);
    expect_request(action, "https://v.example/1.mp4?api_key=abc123");
}

#[test]
fn nothing_new_finishes_at_once() {
    let now = at(T0 + 100);
    let (mut run, action) = run_with_catalog(config(None), now, vec![]);
    expect_persist(action);
    assert_eq!(run.phase(), Phase::Finishing);
    assert_eq!(run.config().checkpoint_time, now);
    assert!(!run.config().locked);
    match run.step(Event::Succeeded) {
        Action::Report(Outcome::Finished { downloaded }) => assert_eq!(downloaded, 0),
        other => panic!("{:?}", other),
    }
}

#[test]
fn nothing_new_still_trims_the_log() {
    let (mut run, action) = run_with_catalog(config(Some("/log")), at(T0 + 100), vec![]);
    assert!(matches!(action, Action::ReadLog { .. }));
    let old = "1\n2\n3\n4\n5\n6\n7\n8\n9\n10\n11\n12\n".to_string();
    match run.step(Event::LogContent(Some(old))) {
        Action::WriteLog { text, .. } => assert_eq!(text, "1\n2\n3\n4\n5\n6\n7\n8\n9\n10\n"),
        other => panic!("{:?}", other),
    }
}

#[test]
fn failed_fetch_aborts_without_touching_the_checkpoint() {
    let (mut run, action) = Run::start(Some(config(None)), at(T0 + 100));
    expect_persist(action);
    assert!(matches!(run.step(Event::Succeeded), Action::Fetch { .. }));
    expect_persist(run.step(Event::Failed));
    assert_eq!(run.phase(), Phase::Aborting);
    assert!(!run.config().locked);
    match run.step(Event::Succeeded) {
        Action::Report(Outcome::Aborted { failure, item }) => {
            assert_eq!(failure, Failure::Catalog);
            assert_eq!(item, None);
        },
        other => panic!("{:?}", other),
    }
    assert_eq!(run.config().checkpoint_time, at(T0));
    assert_eq!(run.phase(), Phase::Aborted);
}

#[test]
fn ambiguous_publish_time_aborts_the_run() {
    let records = vec![
        record("1", "Fine", "2020-01-01 00:00:01"),
        record("2", "Fold", "2020-11-01 01:30:00"),
    ];
    let (mut run, action) = run_with_catalog(config(None), at(T0 + 100), records);
    expect_persist(action);
    assert_eq!(run.failure(), Some(Failure::PublishTime(TimeError::Repeated)));
    assert_eq!(run.queued(), 0);
    match run.step(Event::Succeeded) {
        Action::Report(Outcome::Aborted { failure, item }) => {
            assert_eq!(failure, Failure::PublishTime(TimeError::Repeated));
            assert_eq!(item, None);
        },
        other => panic!("{:?}", other),
    }
    assert!(!run.config().locked);
    assert_eq!(run.config().checkpoint_time, at(T0));
}

#[test]
fn missing_tier_aborts_before_any_request() {
    let mut cfg = config(None);
    cfg.resolution = Resolution::Low;
    let (mut run, action) = run_with_catalog(cfg, at(T0 + 100), three_new());
    expect_persist(action);
    assert_eq!(run.phase(), Phase::Aborting);
    match run.step(Event::Succeeded) {
        Action::Report(Outcome::Aborted { failure, item }) => {
            assert_eq!(failure, Failure::MissingVariant);
            assert_eq!(item, Some("First".to_string()));
        },
        other => panic!("{:?}", other),
    }
    assert_eq!(run.downloaded(), 0);
}

#[test]
fn file_that_cannot_be_created_aborts() {
    let (mut run, _) = run_with_catalog(config(None), at(T0 + 100), three_new());
    expect_create(run.step(Event::Succeeded), "1-2020-01-01 00:00:01--First.mp4");
    expect_persist(run.step(Event::Failed));
    assert_eq!(run.failure(), Some(Failure::CreateFile));
    assert!(!run.partial_file());
    assert!(!run.config().locked);
}

#[test]
fn partial_file_that_cannot_be_removed_is_reported() {
    let (mut run, _) = run_with_catalog(config(None), at(T0 + 100), three_new());
    expect_create(run.step(Event::Succeeded), "1-2020-01-01 00:00:01--First.mp4");
    assert!(matches!(run.step(Event::Succeeded), Action::Stream));
    match run.step(Event::Failed) {
        Action::Remove { file_name, .. } => {
            assert_eq!(file_name, "1-2020-01-01 00:00:01--First.mp4")
        },
        other => panic!("{:?}", other),
    }
    expect_persist(run.step(Event::Failed));
    assert!(run.partial_file());
    match run.step(Event::Succeeded) {
        Action::Report(Outcome::Aborted { failure, item }) => {
            assert_eq!(failure, Failure::RemovePartial);
            assert_eq!(item, Some("First".to_string()));
        },
        other => panic!("{:?}", other),
    }
    assert!(!run.config().locked);
}

#[test]
fn unwritable_record_halts_the_run() {
    let (mut run, _) = Run::start(Some(config(None)), at(T0 + 100));
    assert!(matches!(run.step(Event::Failed), Action::Report(Outcome::Halted)));
    assert_eq!(run.phase(), Phase::Halted);
    assert!(run.is_over());
    assert!(matches!(run.step(Event::Succeeded), Action::Ignore));
}

#[test]
fn unwritable_checkpoint_halts_the_run() {
    let (mut run, _) = run_with_catalog(config(None), at(T0 + 100), three_new());
    expect_create(run.step(Event::Succeeded), "1-2020-01-01 00:00:01--First.mp4");
    assert!(matches!(run.step(Event::Succeeded), Action::Stream));
    expect_persist(run.step(Event::Succeeded));
    assert!(matches!(run.step(Event::Failed), Action::Report(Outcome::Halted)));
    assert_eq!(run.phase(), Phase::Halted);
}

#[test]
fn log_failure_aborts_after_the_downloads() {
    let (mut run, action) = run_with_catalog(
        config(Some("/log")),
        at(T0 + 100),
        vec![record("1", "First", "2020-01-01 00:00:01")],
    );
    expect_request(action, "https://v.example/1.mp4?api_key=abc123");
    let action = download(&mut run, "1-2020-01-01 00:00:01--First.mp4");
    assert!(matches!(action, Action::ReadLog { .. }));
    match run.step(Event::LogContent(Some("Old\n".to_string()))) {
        Action::WriteLog { text, .. } => assert_eq!(text, "First\nOld\n"),
        other => panic!("{:?}", other),
    }
    expect_persist(run.step(Event::Failed));
    assert_eq!(run.phase(), Phase::Aborting);
    match run.step(Event::Succeeded) {
        Action::Report(Outcome::Aborted { failure, item }) => {
            assert_eq!(failure, Failure::Log);
            assert_eq!(item, None);
        },
        other => panic!("{:?}", other),
    }
    assert_eq!(run.config().checkpoint_time, at(T0 + 1));
    assert!(!run.config().locked);
}

#[test]
fn unreadable_log_aborts() {
    let (mut run, action) = run_with_catalog(config(Some("/log")), at(T0 + 100), vec![]);
    assert!(matches!(action, Action::ReadLog { .. }));
    expect_persist(run.step(Event::Failed));
    assert_eq!(run.failure(), Some(Failure::Log));
}

#[test]
fn event_that_answers_nothing_is_ignored() {
    let (mut run, _) = Run::start(Some(config(None)), at(T0 + 100));
    assert!(matches!(run.step(Event::Catalog(three_new())), Action::Ignore));
    assert!(matches!(run.step(Event::LogContent(None)), Action::Ignore));
    assert_eq!(run.phase(), Phase::Locking);
    assert!(matches!(run.step(Event::Succeeded), Action::Fetch { .. }));
    assert!(matches!(run.step(Event::Succeeded), Action::Ignore));
    assert!(matches!(run.step(Event::LogContent(None)), Action::Ignore));
    assert_eq!(run.phase(), Phase::Fetching);
    assert_eq!(run.queued(), 0);
}

#[test]
fn failures_of_a_video_are_told_apart() {
    assert!(Failure::MissingVariant.concerns_item());
    assert!(Failure::Request.concerns_item());
    assert!(Failure::CreateFile.concerns_item());
    assert!(Failure::Transfer.concerns_item());
    assert!(Failure::RemovePartial.concerns_item());
    assert!(!Failure::Catalog.concerns_item());
    assert!(!Failure::Log.concerns_item());
    assert!(!Failure::PublishTime(TimeError::Malformed).concerns_item());
}
