use xbase::error::Error;
use xbase::event::{Event, EventKind};
use xbase::project::{Discovery, Platform, Target};
use xbase::request::Outcome;
use xbase::state::{Registered, State};
use xbase::types::{
    BuildConfiguration, BuildMethod, BuildSettings, Client, DeviceLookup, Operation,
};
use xbase::watch::{BuildRequest, Decision, Listener, RunRequest, Watchable};

fn client(pid: i32, root: &str) -> Client {
    Client { pid, root: root.to_string(), address: format!("/tmp/nvim.{pid}") }
}

fn found() -> Discovery {
    Discovery {
        definitions: vec!["/p/App.xcodeproj".to_string()],
        name: "App".to_string(),
        targets: vec![Target { name: "App".to_string(), platform: Platform::IOS }],
        watchignore: vec!["**/.git/**".to_string()],
    }
}

fn settings() -> BuildSettings {
    BuildSettings {
        method: BuildMethod::WithScheme("App".to_string()),
        configuration: BuildConfiguration::Debug,
    }
}

fn build(pid: i32, root: &str, ops: Operation) -> BuildRequest {
    BuildRequest { client: client(pid, root), settings: settings(), ops }
}

fn run(pid: i32, root: &str, ops: Operation) -> RunRequest {
    RunRequest {
        client: client(pid, root),
        settings: settings(),
        device: DeviceLookup { name: None, udid: None },
        ops,
    }
}

fn watching(state: &State, pid: i32) -> bool {
    state.clients.get(&pid).unwrap().watching
}

#[test]
fn build_identity_follows_settings() {
    assert_eq!(build(100, "/p", Operation::Watch).to_string(), "Build:Debug:WithScheme(App)");
    assert_eq!(build(100, "/p", Operation::Stop).to_string(), "Build:Debug:WithScheme(App)");
    assert_eq!(run(7, "/q", Operation::Watch).to_string(), "Run:Debug:WithScheme(App)");
    let custom = BuildRequest {
        client: client(1, "/p"),
        settings: BuildSettings {
            method: BuildMethod::WithTarget("Core".to_string()),
            configuration: BuildConfiguration::Custom("Staging".to_string()),
        },
        ops: Operation::Watch,
    };
    assert_eq!(custom.to_string(), "Build:Custom(Staging):WithTarget(Core)");
}

#[test]
fn register_then_drop() {
    let mut state = State::new();
    assert_eq!(state.register(&client(100, "/p"), found()).unwrap(), Registered::Created);
    let root = "/p".to_string();
    let project = state.projects.get(&root).unwrap();
    assert_eq!(project.clients(), &vec![100]);
    assert_eq!(project.name(), "App");
    assert_eq!(project.root(), "/p");
    assert_eq!(project.watchignore(), &vec!["**/.git/**".to_string()]);
    assert_eq!(project.targets().len(), 1);
    assert!(state.watcher.contains_key("/p"));
    assert!(state.clients.contains_key(100));

    let dropped = state.drop_client(100).unwrap();
    let project = dropped.project.unwrap();
    assert_eq!(project.root(), "/p");
    assert!(project.clients().is_empty());
    assert!(dropped.listeners.is_empty());
    assert!(!state.projects.contains_root("/p"));
    assert!(!state.watcher.contains_key("/p"));
    assert!(!state.clients.contains_key(100));
}

#[test]
fn register_without_definition_fails() {
    let mut state = State::new();
    let mut nothing = found();
    nothing.definitions.clear();
    let result = state.register(&client(100, "/p"), nothing);
    assert!(matches!(result, Err(Error::DefinitionLocating)));
    assert!(!state.clients.contains_key(100));
    assert!(!state.projects.contains_root("/p"));
    assert!(!state.watcher.contains_key("/p"));
}

#[test]
fn second_client_joins_and_project_outlives_first() {
    let mut state = State::new();
    assert_eq!(state.register(&client(100, "/p"), found()).unwrap(), Registered::Created);
    assert_eq!(state.register(&client(200, "/p"), found()).unwrap(), Registered::Joined);
    assert_eq!(state.register(&client(200, "/p"), found()).unwrap(), Registered::Already);
    let root = "/p".to_string();
    assert_eq!(state.projects.get(&root).unwrap().clients(), &vec![100, 200]);

    let dropped = state.drop_client(100).unwrap();
    assert!(dropped.project.is_none());
    assert_eq!(state.projects.get(&root).unwrap().clients(), &vec![200]);
    assert!(state.watcher.contains_key("/p"));

    let dropped = state.drop_client(200).unwrap();
    assert!(dropped.project.is_some());
    assert!(!state.watcher.contains_key("/p"));
}

#[test]
fn drop_of_unknown_client_is_not_found() {
    let mut state = State::new();
    match state.drop_client(5) {
        Err(Error::NotFound(kind, key)) => {
            assert_eq!(kind, "Client");
            assert_eq!(key, "5");
        }
        other => panic!("unexpected: {other:?}"),
    }
}

#[test]
fn build_once_registers_nothing() {
    let mut state = State::new();
    state.register(&client(100, "/p"), found()).unwrap();
    let request = build(100, "/p", Operation::Once);
    assert_eq!(request.title(), "Build:App");
    assert!(matches!(state.build(request), Ok(Outcome::Once)));
    assert_eq!(state.watcher.get("/p").unwrap().len(), 0);
    assert!(!watching(&state, 100));
}

#[test]
fn build_once_needs_project_and_client() {
    let mut state = State::new();
    match state.build(build(100, "/p", Operation::Once)) {
        Err(Error::NotFound(kind, key)) => {
            assert_eq!(kind, "Project");
            assert_eq!(key, "/p");
        }
        other => panic!("unexpected: {other:?}"),
    }
    state.register(&client(100, "/p"), found()).unwrap();
    match state.build(build(300, "/p", Operation::Once)) {
        Err(Error::NotFound(kind, key)) => {
            assert_eq!(kind, "Client");
            assert_eq!(key, "300");
        }
        other => panic!("unexpected: {other:?}"),
    }
}

#[test]
fn build_watch_rebuilds_on_save() {
    let mut state = State::new();
    state.register(&client(100, "/p"), found()).unwrap();
    assert!(matches!(state.build(build(100, "/p", Operation::Watch)), Ok(Outcome::Watching)));
    assert!(state.watcher.get("/p").unwrap().contains_key("Build:Debug:WithScheme(App)"));
    assert!(watching(&state, 100));

    let root = "/p".to_string();
    let touched = Event::with("/p/Foo.swift".to_string(), EventKind::ContentUpdate, false);
    assert!(!state.recompile(&root, &touched, true).unwrap());
    let plan = state.dispatch(&root, &touched, true, &vec![]).unwrap();
    assert_eq!(plan.len(), 1);
    assert_eq!(plan[0].key, "Build:Debug:WithScheme(App)");
    assert_eq!(plan[0].decision, Decision::Trigger);
    match &plan[0].listener {
        Listener::Build(request) => assert_eq!(request.title(), "Rebuild:App"),
        other => panic!("unexpected: {other:?}"),
    }
    assert_eq!(state.watcher.get("/p").unwrap().len(), 1);

    let created = Event::with("/p/Bar.swift".to_string(), EventKind::Create, false);
    assert!(state.recompile(&root, &created, true).unwrap());
    let echoes = state.recompiled(&client(100, "/p"));
    assert_eq!(echoes.len(), 1);
    assert_eq!(echoes[0].pid, 100);
    assert_eq!(echoes[0].text, "new compilation database generated ✅");
    assert!(!echoes[0].error);
    let plan = state.dispatch(&root, &created, true, &vec![]).unwrap();
    assert_eq!(plan[0].decision, Decision::Trigger);
}

#[test]
fn duplicate_watch_is_answered_with_an_echo() {
    let mut state = State::new();
    assert_eq!(state.register(&client(100, "/p"), found()).unwrap(), Registered::Created);
    assert!(matches!(state.build(build(100, "/p", Operation::Watch)), Ok(Outcome::Watching)));
    match state.build(build(100, "/p", Operation::Watch)) {
        Ok(Outcome::AlreadyWatching(echo)) => {
            assert_eq!(echo.text, "Already watching with Build:Debug:WithScheme(App)!!");
            assert_eq!(echo.pid, 100);
            assert!(echo.error);
        }
        other => panic!("unexpected outcome: {other:?}"),
    }
    let service = state.watcher.get("/p").unwrap();
    assert_eq!(service.len(), 1);
    assert!(watching(&state, 100));
}

#[test]
fn stop_removes_the_watchable_and_clears_the_flag() {
    let mut state = State::new();
    state.register(&client(100, "/p"), found()).unwrap();
    state.build(build(100, "/p", Operation::Watch)).unwrap();
    match state.build(build(100, "/p", Operation::Stop)) {
        Ok(Outcome::Stopped(Listener::Build(request))) => {
            assert_eq!(request.client.pid, 100);
            assert_eq!(request.ops, Operation::Watch);
        }
        other => panic!("unexpected outcome: {other:?}"),
    }
    assert!(!state.watcher.get("/p").unwrap().contains_key("Build:Debug:WithScheme(App)"));
    assert!(!watching(&state, 100));
}

#[test]
fn stop_of_unknown_key_is_not_found_and_changes_nothing() {
    let mut state = State::new();
    state.register(&client(100, "/p"), found()).unwrap();
    state.run(&run(100, "/p", Operation::Watch)).unwrap();
    state.started(&run(100, "/p", Operation::Watch), true).unwrap();
    match state.build(build(100, "/p", Operation::Stop)) {
        Err(Error::NotFound(kind, key)) => {
            assert_eq!(kind, "Watchable");
            assert_eq!(key, "Build:Debug:WithScheme(App)");
        }
        other => panic!("unexpected outcome: {other:?}"),
    }
    assert_eq!(state.watcher.get("/p").unwrap().len(), 1);
    assert!(watching(&state, 100));
}

#[test]
fn flag_stays_while_another_watchable_of_the_client_is_left() {
    let mut state = State::new();
    state.register(&client(100, "/p"), found()).unwrap();
    state.build(build(100, "/p", Operation::Watch)).unwrap();
    state.started(&run(100, "/p", Operation::Watch), true).unwrap();
    assert_eq!(state.watcher.get("/p").unwrap().len(), 2);
    state.build(build(100, "/p", Operation::Stop)).unwrap();
    assert!(watching(&state, 100));
    state.run(&run(100, "/p", Operation::Stop)).unwrap();
    assert!(!watching(&state, 100));
}

#[test]
fn run_then_stop() {
    let mut state = State::new();
    state.register(&client(100, "/p"), found()).unwrap();
    let request = run(100, "/p", Operation::Watch);
    assert_eq!(request.build_title(), "Build:App");
    assert_eq!(request.run_title(), "Run:App");
    assert!(matches!(state.run(&request), Ok(Outcome::Start)));
    assert_eq!(state.watcher.get("/p").unwrap().len(), 0);
    assert!(matches!(state.started(&request, true), Ok(Outcome::Watching)));
    assert!(state.watcher.get("/p").unwrap().contains_key("Run:Debug:WithScheme(App)"));
    assert!(watching(&state, 100));
    assert!(matches!(state.run(&request), Ok(Outcome::AlreadyWatching(_))));

    match state.run(&run(100, "/p", Operation::Stop)) {
        Ok(Outcome::Stopped(Listener::Run(service))) => assert_eq!(service.client.pid, 100),
        other => panic!("unexpected outcome: {other:?}"),
    }
    assert_eq!(state.watcher.get("/p").unwrap().len(), 0);
    assert!(!watching(&state, 100));
}

#[test]
fn run_whose_build_failed_is_not_registered() {
    let mut state = State::new();
    state.register(&client(100, "/p"), found()).unwrap();
    let request = run(100, "/p", Operation::Watch);
    match state.started(&request, false) {
        Err(Error::Build(message)) => assert_eq!(message, "[scheme: App] failed to be built"),
        other => panic!("unexpected outcome: {other:?}"),
    }
    assert_eq!(state.watcher.get("/p").unwrap().len(), 0);
    assert!(!watching(&state, 100));
}

#[test]
fn run_once_starts_nothing_to_watch() {
    let mut state = State::new();
    state.register(&client(100, "/p"), found()).unwrap();
    assert!(matches!(state.run(&run(100, "/p", Operation::Once)), Ok(Outcome::Once)));
    assert_eq!(state.watcher.get("/p").unwrap().len(), 0);
}

#[test]
fn exited_run_is_discarded_and_flag_follows() {
    let mut state = State::new();
    state.register(&client(100, "/p"), found()).unwrap();
    state.build(build(100, "/p", Operation::Watch)).unwrap();
    state.started(&run(100, "/p", Operation::Watch), true).unwrap();
    let root = "/p".to_string();
    let saved = Event::with("/p/Foo.swift".to_string(), EventKind::ContentUpdate, false);
    let exited = vec!["Run:Debug:WithScheme(App)".to_string(), "Build:Debug:WithScheme(App)".to_string()];
    let plan = state.dispatch(&root, &saved, true, &exited).unwrap();
    assert_eq!(plan.len(), 2);
    assert_eq!(plan[0].decision, Decision::Trigger);
    assert_eq!(plan[1].key, "Run:Debug:WithScheme(App)");
    assert_eq!(plan[1].decision, Decision::Discard);
    let service = state.watcher.get("/p").unwrap();
    assert_eq!(service.len(), 1);
    assert!(service.contains_key("Build:Debug:WithScheme(App)"));
    assert!(watching(&state, 100));

    state.build(build(100, "/p", Operation::Stop)).unwrap();
    state.started(&run(100, "/p", Operation::Watch), true).unwrap();
    state.dispatch(&root, &saved, true, &exited).unwrap();
    assert_eq!(state.watcher.get("/p").unwrap().len(), 0);
    assert!(!watching(&state, 100));
}

#[test]
fn dispatch_without_watcher_ends_the_loop() {
    let mut state = State::new();
    let root = "/gone".to_string();
    let event = Event::default();
    match state.dispatch(&root, &event, true, &vec![]) {
        Err(Error::NotFound(kind, key)) => {
            assert_eq!(kind, "Watcher");
            assert_eq!(key, "/gone");
        }
        other => panic!("unexpected outcome: {other:?}"),
    }
}

#[test]
fn watch_needs_client_then_watcher() {
    let mut state = State::new();
    state.register(&client(100, "/p"), found()).unwrap();
    match state.build(build(9, "/p", Operation::Watch)) {
        Err(Error::NotFound(kind, key)) => {
            assert_eq!(kind, "Client");
            assert_eq!(key, "9");
        }
        other => panic!("unexpected outcome: {other:?}"),
    }
    match state.build(build(100, "/elsewhere", Operation::Watch)) {
        Err(Error::NotFound(kind, key)) => {
            assert_eq!(kind, "Watcher");
            assert_eq!(key, "/elsewhere");
        }
        other => panic!("unexpected outcome: {other:?}"),
    }
}

#[test]
fn sync_client_state_lists_every_client() {
    let mut state = State::new();
    state.register(&client(100, "/p"), found()).unwrap();
    state.register(&client(200, "/p"), found()).unwrap();
    state.build(build(200, "/p", Operation::Watch)).unwrap();
    assert_eq!(state.clients.sync_client_state(), vec![(100, false), (200, true)]);
}

#[test]
fn build_failure_text() {
    let request = build(100, "/p", Operation::Watch);
    assert_eq!(request.failure(), "Failed: -configuration Debug -scheme \"App\" ");
}
