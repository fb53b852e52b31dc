use github_package_gc::error::AppError;
use github_package_gc::packages::{Container, Metadata, Package};
use github_package_gc::session::{Commands, Event, Output, Request, Session, Step};

fn record(id: i64, tags: &[&str]) -> Package {
    Package {
        id,
        created_at: format!("2023-01-0{id}T00:00:00Z"),
        metadata: Metadata {
            package_type: "container".to_string(),
            container: Container { tags: tags.iter().map(|tag| tag.to_string()).collect() },
        },
        ..Package::default()
    }
}

fn five() -> Vec<Package> {
    vec![
        record(1, &["t1"]),
        record(2, &["t2"]),
        record(3, &[]),
        record(4, &["t4"]),
        record(5, &["t5"]),
    ]
}

fn names(list: &[&str]) -> Vec<String> {
    list.iter().map(|name| name.to_string()).collect()
}

fn note(transcript: &mut Vec<String>, step: &Step) {
    for item in &step.output {
        match item {
            Output::Line(text) => transcript.push(format!("out {text}")),
            Output::Warning(text) => transcript.push(format!("err {text}")),
        }
    }
    match &step.request {
        Request::Fetch { url } => transcript.push(format!("GET {url}")),
        Request::Delete { url } => transcript.push(format!("DELETE {url}")),
        Request::Finish => transcript.push("finish".to_string()),
        Request::Abort { .. } => transcript.push("abort".to_string()),
    }
}

/// Drives a session to its end, answering every fetch with the same list and every
/// deletion with success, and returns what it printed and asked, in order.
fn run(package_names: &[&str], command: Option<Commands>, packages: &[Package]) -> Vec<String> {
    let mut transcript = Vec::new();
    let (mut session, mut step) =
        Session::start("container".to_string(), names(package_names), command);
    loop {
        note(&mut transcript, &step);
        let event = match step.request {
            Request::Fetch { .. } => {
                Event::Fetched { body: "<body>".to_string(), packages: packages.to_vec() }
            }
            Request::Delete { .. } => Event::Deleted,
            Request::Finish | Request::Abort { .. } => break,
        };
        assert!(session.accepts(&event));
        assert!(!session.is_over());
        (session, step) = session.step(event);
    }
    assert!(session.is_over());
    transcript
}

fn deletions(transcript: &[String]) -> Vec<String> {
    transcript.iter().filter(|entry| entry.starts_with("DELETE ")).cloned().collect()
}

const WEB: &str = "https://api.github.com/user/packages/container/web/versions";

#[test]
fn collecting_with_four_kept_deletes_only_the_fifth() {
    let transcript = run(&["web"], Some(Commands::GC { skip: Some(4) }), &five());
    assert_eq!(
        transcript,
        vec![
            "out Package: web".to_string(),
            format!("GET {WEB}"),
            "out Running GC...".to_string(),
            "out Deleting: 5; tag:t5".to_string(),
            format!("DELETE {WEB}/5"),
            "finish".to_string(),
        ]
    );
}

#[test]
fn collecting_with_none_kept_deletes_all_in_order() {
    let transcript = run(&["web"], Some(Commands::GC { skip: Some(0) }), &five());
    assert_eq!(
        deletions(&transcript),
        vec![
            format!("DELETE {WEB}/1"),
            format!("DELETE {WEB}/2"),
            format!("DELETE {WEB}/3"),
            format!("DELETE {WEB}/4"),
            format!("DELETE {WEB}/5"),
        ]
    );
}

#[test]
fn collecting_keeps_four_by_default() {
    let transcript = run(&["web"], Some(Commands::GC { skip: None }), &five());
    assert_eq!(deletions(&transcript), vec![format!("DELETE {WEB}/5")]);
}

#[test]
fn collecting_a_short_list_deletes_nothing() {
    for skip in [5usize, 6, 100] {
        let transcript = run(&["web"], Some(Commands::GC { skip: Some(skip) }), &five());
        assert_eq!(
            transcript,
            vec![
                "out Package: web".to_string(),
                format!("GET {WEB}"),
                "out Running GC...".to_string(),
                "finish".to_string(),
            ]
        );
    }
    let transcript = run(&["web"], Some(Commands::GC { skip: None }), &five()[..4]);
    assert!(deletions(&transcript).is_empty());
}

#[test]
fn collecting_counts_length_minus_kept() {
    for skip in 0..8usize {
        let transcript = run(&["web"], Some(Commands::GC { skip: Some(skip) }), &five());
        let expected: Vec<String> =
            (skip + 1..=5).map(|id| format!("DELETE {WEB}/{id}")).collect();
        assert_eq!(deletions(&transcript), expected);
    }
}

#[test]
fn untagged_version_is_warned_about_and_still_deleted() {
    let transcript = run(&["web"], Some(Commands::GC { skip: Some(2) }), &five());
    assert_eq!(
        transcript[2..],
        vec![
            "out Running GC...".to_string(),
            "err Tag Not Found".to_string(),
            "out Deleting: 3; tag:<Unkown>".to_string(),
            format!("DELETE {WEB}/3"),
            "out Deleting: 4; tag:t4".to_string(),
            format!("DELETE {WEB}/4"),
            "out Deleting: 5; tag:t5".to_string(),
            format!("DELETE {WEB}/5"),
            "finish".to_string(),
        ]
    );
}

#[test]
fn deletion_is_announced_before_it_is_asked_for() {
    let (session, _) = Session::start(
        "container".to_string(),
        names(&["web"]),
        Some(Commands::GC { skip: Some(4) }),
    );
    let (_, step) = session.step(Event::Fetched { body: String::new(), packages: five() });
    assert!(matches!(step.output.last(), Some(Output::Line(line)) if line == "Deleting: 5; tag:t5"));
    assert!(matches!(step.request, Request::Delete { .. }));
}

#[test]
fn listing_prints_condensed_lines() {
    let transcript = run(&["web"], Some(Commands::List { raw: false, debug: false }), &five());
    assert_eq!(
        transcript,
        vec![
            "out Package: web".to_string(),
            format!("GET {WEB}"),
            "out Printing lists...".to_string(),
            "out 2023-01-01T00:00:00Z t1".to_string(),
            "out 2023-01-02T00:00:00Z t2".to_string(),
            "err Tag Not Found".to_string(),
            "out 2023-01-03T00:00:00Z <Unkown>".to_string(),
            "out 2023-01-04T00:00:00Z t4".to_string(),
            "out 2023-01-05T00:00:00Z t5".to_string(),
            "finish".to_string(),
        ]
    );
}

#[test]
fn raw_listing_prints_records_in_full() {
    let transcript = run(&["web"], Some(Commands::List { raw: true, debug: false }), &five());
    let mut expected =
        vec!["out Package: web".to_string(), format!("GET {WEB}"), "out Printing lists...".to_string()];
    for package in five() {
        expected.push(format!("out {:#?}", package));
    }
    expected.push("finish".to_string());
    assert_eq!(transcript, expected);
}

#[test]
fn debug_listing_prints_the_body_first() {
    let transcript = run(&["web"], Some(Commands::List { raw: false, debug: true }), &five()[..1]);
    assert_eq!(
        transcript[2..],
        vec![
            "out Printing lists...".to_string(),
            "out <body>".to_string(),
            "out 2023-01-01T00:00:00Z t1".to_string(),
            "finish".to_string(),
        ]
    );
}

#[test]
fn listing_an_empty_list_prints_the_notice_only() {
    let transcript = run(&["web"], Some(Commands::List { raw: false, debug: false }), &[]);
    assert_eq!(transcript[2..], vec!["out Printing lists...".to_string(), "finish".to_string()]);
}

#[test]
fn without_a_command_versions_are_fetched_and_left() {
    let transcript = run(&["web", "api"], None, &five());
    assert_eq!(
        transcript,
        vec![
            "out Package: web".to_string(),
            format!("GET {WEB}"),
            "out Package: api".to_string(),
            "GET https://api.github.com/user/packages/container/api/versions".to_string(),
            "finish".to_string(),
        ]
    );
}

#[test]
fn packages_are_handled_one_after_another() {
    let transcript = run(&["web", "api"], Some(Commands::GC { skip: Some(4) }), &five());
    assert_eq!(
        transcript,
        vec![
            "out Package: web".to_string(),
            format!("GET {WEB}"),
            "out Running GC...".to_string(),
            "out Deleting: 5; tag:t5".to_string(),
            format!("DELETE {WEB}/5"),
            "out Package: api".to_string(),
            "GET https://api.github.com/user/packages/container/api/versions".to_string(),
            "out Running GC...".to_string(),
            "out Deleting: 5; tag:t5".to_string(),
            "DELETE https://api.github.com/user/packages/container/api/versions/5".to_string(),
            "finish".to_string(),
        ]
    );
}

#[test]
fn run_without_packages_ends_at_once() {
    let (session, step) = Session::start("container".to_string(), Vec::new(), None);
    assert!(session.is_over());
    assert!(step.output.is_empty());
    assert!(matches!(step.request, Request::Finish));
    assert!(!session.accepts(&Event::Deleted));
}

fn failure() -> AppError {
    AppError::from(serde_json::from_str::<serde_json::Value>("{").unwrap_err())
}

#[test]
fn failed_fetch_ends_the_run() {
    let (session, _) = Session::start(
        "container".to_string(),
        names(&["web", "api"]),
        Some(Commands::List { raw: false, debug: false }),
    );
    let (session, step) = session.step(Event::Failed { failure: failure() });
    assert!(step.output.is_empty());
    assert!(matches!(step.request, Request::Abort { failure: AppError::SerdeJsonError { .. } }));
    assert!(session.is_over());
    assert!(!session.accepts(&Event::Deleted));
    assert!(!session.accepts(&Event::Fetched { body: String::new(), packages: Vec::new() }));
    assert!(!session.accepts(&Event::Failed { failure: failure() }));
}

#[test]
fn failed_deletion_ends_the_run_with_later_versions_left() {
    let (session, _) = Session::start(
        "container".to_string(),
        names(&["web", "api"]),
        Some(Commands::GC { skip: Some(0) }),
    );
    let (session, step) = session.step(Event::Fetched { body: String::new(), packages: five() });
    assert!(matches!(&step.request, Request::Delete { url } if url == &format!("{WEB}/1")));
    let (session, step) = session.step(Event::Deleted);
    assert!(matches!(&step.request, Request::Delete { url } if url == &format!("{WEB}/2")));
    let (session, step) = session.step(Event::Failed { failure: failure() });
    assert!(step.output.is_empty());
    assert!(matches!(step.request, Request::Abort { .. }));
    assert!(session.is_over());
}

#[test]
fn stray_event_repeats_the_request() {
    let (session, first) =
        Session::start("container".to_string(), names(&["web"]), Some(Commands::GC { skip: Some(3) }));
    assert!(matches!(&first.request, Request::Fetch { url } if url == WEB));
    assert!(matches!(session.pending(), Request::Fetch { url } if url == WEB));
    let (session, step) = session.step(Event::Deleted);
    assert!(step.output.is_empty());
    assert!(matches!(&step.request, Request::Fetch { url } if url == WEB));
    assert!(!session.is_over());
    let (session, step) = session.step(Event::Fetched { body: String::new(), packages: five() });
    assert!(matches!(&step.request, Request::Delete { url } if url == &format!("{WEB}/4")));
    let (session, step) = session.step(Event::Fetched { body: String::new(), packages: five() });
    assert!(step.output.is_empty());
    assert!(matches!(&step.request, Request::Delete { url } if url == &format!("{WEB}/4")));
    assert!(matches!(session.pending(), Request::Delete { url } if url == format!("{WEB}/4")));
    let (session, step) = session.step(Event::Deleted);
    assert!(matches!(&step.request, Request::Delete { url } if url == &format!("{WEB}/5")));
    let (session, step) = session.step(Event::Deleted);
    assert!(matches!(step.request, Request::Finish));
    let (session, step) = session.step(Event::Deleted);
    assert!(step.output.is_empty());
    assert!(matches!(step.request, Request::Finish));
    assert!(matches!(session.pending(), Request::Finish));
    assert!(session.is_over());
}

#[test]
fn session_accepts_only_the_answer_to_its_request() {
    let (session, _) = Session::start("container".to_string(), names(&["web"]), Some(Commands::GC { skip: None }));
    assert!(session.accepts(&Event::Fetched { body: String::new(), packages: Vec::new() }));
    assert!(session.accepts(&Event::Failed { failure: failure() }));
    assert!(!session.accepts(&Event::Deleted));
    let (session, _) = session.step(Event::Fetched { body: String::new(), packages: five() });
    assert!(session.accepts(&Event::Deleted));
    assert!(session.accepts(&Event::Failed { failure: failure() }));
    assert!(!session.accepts(&Event::Fetched { body: String::new(), packages: Vec::new() }));
}
