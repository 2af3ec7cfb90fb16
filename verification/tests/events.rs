use xbase::clock::{InternalState, DEBOUNCE_MILLIS};
use xbase::error::Error;
use xbase::event::{Event, EventKind, Notification, RawKind};
use xbase::glob::is_ignored;
use xbase::project::{BareboneProject, Platform, Target};
use xbase::types::Client;
use xbase::watch::triggers;

fn notification(kind: RawKind, path: &str) -> Notification {
    Notification { kind, paths: vec![path.to_string()] }
}

#[test]
fn raw_kinds_become_one_event_kind_each() {
    assert_eq!(RawKind::Create.classify(), EventKind::Create);
    assert_eq!(RawKind::Remove.classify(), EventKind::Remove);
    assert_eq!(RawKind::ModifyName.classify(), EventKind::Rename);
    assert_eq!(RawKind::ModifyData.classify(), EventKind::ContentUpdate);
    assert_eq!(RawKind::ModifyMetadata.classify(), EventKind::Other);
    assert_eq!(RawKind::ModifyOther.classify(), EventKind::Other);
    assert_eq!(RawKind::Access.classify(), EventKind::Other);
    assert_eq!(RawKind::Other.classify(), EventKind::Other);
}

#[test]
fn kind_predicates_exclude_each_other() {
    let kinds = [
        EventKind::Create,
        EventKind::Remove,
        EventKind::Rename,
        EventKind::ContentUpdate,
        EventKind::Other,
    ];
    for kind in kinds {
        let event = Event::with("/p/a".to_string(), kind, false);
        let hits = [
            event.is_create_event(),
            event.is_remove_event(),
            event.is_rename_event(),
            event.is_content_update_event(),
        ];
        let count = hits.iter().filter(|h| **h).count();
        assert_eq!(count, if kind == EventKind::Other { 0 } else { 1 });
        assert_eq!(event.kind(), kind);
        assert_eq!(event.path(), "/p/a");
    }
}

#[test]
fn accept_marks_a_repeat_within_the_threshold_as_seen() {
    let mut state = InternalState::new();
    assert_eq!(state.last_path(), "");
    let first = Event::accept(&mut state, &notification(RawKind::ModifyData, "/p/a.swift"), 10, 150)
        .unwrap();
    assert!(!first.is_seen());
    assert_eq!(first.kind(), EventKind::ContentUpdate);
    assert_eq!(state.last_path(), "/p/a.swift");
    let again = Event::accept(&mut state, &notification(RawKind::ModifyData, "/p/a.swift"), 149, 150)
        .unwrap();
    assert!(again.is_seen());
    let late = Event::accept(&mut state, &notification(RawKind::ModifyData, "/p/a.swift"), 150, 150)
        .unwrap();
    assert!(!late.is_seen());
    let other = Event::accept(&mut state, &notification(RawKind::Create, "/p/b.swift"), 0, 150)
        .unwrap();
    assert!(!other.is_seen());
    assert_eq!(state.last_path(), "/p/b.swift");
}

#[test]
fn notification_without_path_is_dropped() {
    let mut state = InternalState::new();
    state.remember("/p/a");
    let empty = Notification { kind: RawKind::Create, paths: vec![] };
    assert!(Event::accept(&mut state, &empty, 0, 150).is_none());
    assert!(Event::new(&vec![], &mut state, &empty, 150).unwrap().is_none());
    assert_eq!(state.last_path(), "/p/a");
}

#[test]
fn ignored_paths_give_no_event() {
    let ignore = vec!["**/*.swp".to_string(), "**/.git/**".to_string()];
    let mut state = InternalState::new();
    let dropped = Event::new(
        &ignore,
        &mut state,
        &notification(RawKind::Create, "p/src/.main.swift.swp"),
        DEBOUNCE_MILLIS,
    )
    .unwrap();
    assert!(dropped.is_none());
    assert_eq!(state.last_path(), "");
    let kept = Event::new(
        &ignore,
        &mut state,
        &notification(RawKind::Create, "p/src/main.swift"),
        DEBOUNCE_MILLIS,
    )
    .unwrap()
    .unwrap();
    assert_eq!(kept.path(), "p/src/main.swift");
    assert!(kept.is_create_event());
    assert_eq!(state.last_path(), "p/src/main.swift");
}

#[test]
fn glob_patterns_are_matched_as_a_set() {
    let patterns = vec!["**/*.swp".to_string(), "build/**".to_string()];
    assert!(is_ignored(&patterns, "a/b/c.swp").unwrap());
    assert!(is_ignored(&patterns, "build/out/app").unwrap());
    assert!(!is_ignored(&patterns, "a/b/c.swift").unwrap());
    assert!(!is_ignored(&vec![], "a/b/c.swift").unwrap());
}

#[test]
fn invalid_glob_pattern_is_an_error() {
    let patterns = vec!["a/{b".to_string()];
    match is_ignored(&patterns, "a/b") {
        Err(Error::Unexpected(message)) => assert_eq!(message, "invalid ignore pattern"),
        other => panic!("unexpected: {other:?}"),
    }
    let mut state = InternalState::new();
    let result = Event::new(&patterns, &mut state, &notification(RawKind::Create, "a/b"), 150);
    assert!(matches!(result, Err(Error::Unexpected(_))));
}

#[test]
fn trigger_policy() {
    let event = |kind, seen| Event::with("/p/a".to_string(), kind, seen);
    assert!(triggers(&event(EventKind::ContentUpdate, true), true));
    assert!(triggers(&event(EventKind::Rename, true), true));
    assert!(triggers(&event(EventKind::Create, true), true));
    assert!(triggers(&event(EventKind::Remove, true), false));
    assert!(!triggers(&event(EventKind::Other, false), true));
    assert!(!triggers(&event(EventKind::Other, true), false));
    assert!(triggers(&event(EventKind::Other, false), false));
}

#[test]
fn default_event_is_other_and_unseen() {
    let event = Event::default();
    assert_eq!(event.kind(), EventKind::Other);
    assert!(!event.is_seen());
    assert_eq!(event.path(), "");
}

#[test]
fn debounce_clock_keeps_the_path() {
    let mut state = InternalState::default();
    state.remember("/p/x");
    state.update_debounce();
    assert_eq!(state.last_path(), "/p/x");
    assert!(state.last_run() < 60_000);
    assert!(state.is_repeat("/p/x", 1, DEBOUNCE_MILLIS));
    assert!(!state.is_repeat("/p/y", 1, DEBOUNCE_MILLIS));
    assert!(!state.is_repeat("/p/x", DEBOUNCE_MILLIS, DEBOUNCE_MILLIS));
}

#[test]
fn project_regenerates_on_structure_changes_only() {
    let client = Client { pid: 1, root: "/p".to_string(), address: String::new() };
    let project = BareboneProject::new(
        &client,
        "App".to_string(),
        vec![Target { name: "App".to_string(), platform: Platform::MacOS }],
        vec![],
    );
    let event = |kind| Event::with("/p/a".to_string(), kind, false);
    assert!(project.should_generate(&event(EventKind::Create)));
    assert!(project.should_generate(&event(EventKind::Remove)));
    assert!(project.should_generate(&event(EventKind::Rename)));
    assert!(!project.should_generate(&event(EventKind::ContentUpdate)));
    assert!(!project.should_generate(&event(EventKind::Other)));
}

#[test]
fn compile_database_arguments() {
    let client = Client { pid: 1, root: "/p".to_string(), address: String::new() };
    let project = BareboneProject::new(&client, "App".to_string(), vec![], vec![]);
    let base = vec!["clean".to_string(), "build".to_string()];
    assert_eq!(project.workspace(), "/p/App.xcworkspace");
    assert_eq!(
        project.update_compile_database(&base, "/cache/App", true),
        vec!["clean", "build", "SYMROOT=/cache/App", "-workspace", "App.xcworkspace", "-scheme", "App"]
    );
    assert_eq!(
        project.update_compile_database(&base, "/cache/App", false),
        vec!["clean", "build", "SYMROOT=/cache/App", "-project", "App.xcodeproj"]
    );
}

#[test]
fn definition_is_the_first_project_file() {
    let found = vec!["/p/A.xcodeproj".to_string(), "/p/B.xcodeproj".to_string()];
    assert_eq!(BareboneProject::definition(&found).unwrap(), "/p/A.xcodeproj");
    assert!(matches!(BareboneProject::definition(&vec![]), Err(Error::DefinitionLocating)));
}
