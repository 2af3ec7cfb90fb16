use bsp_server::RequestId;
use xbase::bsp::{FileArgs, State};
use xbase::error::Error;
use xbase::extensions::{
    route, BuildTargetOutputPaths, BuildTargetOutputPathsRequest, BuildTargetOutputPathsResponse,
    Incoming, Message, OptionsChangedNotification, OptionsChangedRequest, OptionsRequest,
    OptionsResponse, RegisterAction, Route, OPTIONS_CHANGED, UNHANDLED_CODE,
};
use xbase::server::{
    compile_filepath, config_filepath, default_response, index_paths, initialize,
};

fn file(path: &str, args: &[&str]) -> FileArgs {
    FileArgs { path: path.to_string(), args: args.iter().map(|a| a.to_string()).collect() }
}

fn database(flag: &str) -> Vec<Vec<FileArgs>> {
    vec![
        vec![file("/p/File.swift", &["-sdk", flag]), file("/p/Other.swift", &["-O"])],
        vec![file("/p/Main.m", &["-c", "/p/Main.m"])],
    ]
}

fn state() -> State {
    State::new("/p".to_string(), "/p/.compile".to_string(), database("A1"), 10)
}

#[test]
fn lookup_fills_the_cache_and_finds_the_file() {
    let mut state = state();
    assert_eq!(state.get_compile_args("/p/File.swift").unwrap(), vec!["-sdk", "A1"]);
    assert_eq!(state.get_compile_args("/p/Main.m").unwrap(), vec!["-c", "/p/Main.m"]);
    match state.get_compile_args("/p/Unknown.swift") {
        Err(Error::Unexpected(m)) => assert_eq!(m, "Missing compile arguments for /p/Unknown.swift"),
        other => panic!("unexpected: {other:?}"),
    }
}

#[test]
fn later_command_overrides_an_earlier_one() {
    let db = vec![vec![file("/p/a", &["1"])], vec![file("/p/b", &["2"]), file("/p/a", &["3"])]];
    let mut state = State::new("/p".to_string(), "/p/.compile".to_string(), db, 0);
    assert_eq!(state.get_compile_args("/p/a").unwrap(), vec!["3"]);
    assert_eq!(state.get_compile_args("/p/b").unwrap(), vec!["2"]);
}

#[test]
fn options_lookup_with_mtime_change() {
    let mut state = state();
    let id = RequestId::from(1);
    let request = OptionsChangedRequest::new("file:///p/File.swift".to_string(), RegisterAction::Register);
    let answer = state.register_for_changes(id.clone(), request, Some("file:///p/".to_string()));
    assert!(answer.error.is_none());
    assert_eq!(answer.messages.len(), 2);
    assert!(matches!(&answer.messages[0], Message::Done(i) if *i == id));
    match &answer.messages[1] {
        Message::OptionsChanged(n) => {
            assert_eq!(n.uri, "file:///p/File.swift");
            assert_eq!(n.updated_options.options, vec!["-sdk", "A1"]);
            assert_eq!(n.updated_options.working_directory.as_deref(), Some("file:///p/"));
        }
        other => panic!("unexpected: {other:?}"),
    }

    assert!(!state.needs_reload(10));
    assert!(state.needs_reload(11));
    state.reload(database("A2"), 11);
    assert!(!state.needs_reload(11));
    let id = RequestId::from("two".to_string());
    let answer = state.sourcekit_options(
        id.clone(),
        OptionsRequest { uri: "file:///p/File.swift".to_string() },
        None,
    );
    assert!(answer.error.is_none());
    assert_eq!(answer.messages.len(), 1);
    match &answer.messages[0] {
        Message::Options(i, response) => {
            assert_eq!(*i, id);
            assert_eq!(response.options, vec!["-sdk", "A2"]);
            assert!(response.working_directory.is_none());
        }
        other => panic!("unexpected: {other:?}"),
    }
}

#[test]
fn unregister_is_answered_with_the_empty_response_only() {
    let mut state = state();
    let request = OptionsChangedRequest::new("file:///p/File.swift".to_string(), RegisterAction::Unregister);
    let answer = state.register_for_changes(RequestId::from(3), request, None);
    assert!(answer.error.is_none());
    assert_eq!(answer.messages.len(), 1);
    assert!(matches!(&answer.messages[0], Message::Done(_)));
}

#[test]
fn register_of_unknown_file_sends_the_response_then_fails() {
    let mut state = state();
    let request = OptionsChangedRequest::new("file:///p/Nope.swift".to_string(), RegisterAction::Register);
    let answer = state.register_for_changes(RequestId::from(3), request, None);
    assert_eq!(answer.messages.len(), 1);
    assert!(matches!(&answer.messages[0], Message::Done(_)));
    match answer.error {
        Some(Error::Unexpected(m)) => assert_eq!(m, "Missing compile arguments for /p/Nope.swift"),
        other => panic!("unexpected: {other:?}"),
    }
}

#[test]
fn path_of_the_uri_is_what_is_looked_up() {
    let mut state = State::new(
        "/p".to_string(),
        "/p/.compile".to_string(),
        vec![vec![file("/p/My%20File.swift", &["-x"])]],
        0,
    );
    let response = state.options("file:///p/My File.swift?query#fragment", None).unwrap();
    assert_eq!(response.options, vec!["-x"]);
    match state.options("not a uri", None) {
        Err(Error::Unexpected(m)) => assert_eq!(m, "Invalid uri not a uri"),
        other => panic!("unexpected: {other:?}"),
    }
}

#[test]
fn messages_are_routed() {
    let mut state = state();
    let answer = state.handle_message(Incoming::WorkspaceBuildTargets(RequestId::from(1)));
    assert!(matches!(&answer.messages[..], [Message::BuildTargets(_)]));
    let answer = state.handle_message(Incoming::BuildTargetSources(RequestId::from(2)));
    assert!(matches!(&answer.messages[..], [Message::Sources(_)]));
    let request = BuildTargetOutputPathsRequest { targets: vec!["file:///p/".to_string()] };
    let answer = state.handle_message(Incoming::OutputPaths(RequestId::from(3), request));
    match &answer.messages[..] {
        [Message::OutputPaths(_, response)] => assert!(response.items.is_empty()),
        other => panic!("unexpected: {other:?}"),
    }
    let answer = state.handle_message(Incoming::Unhandled(RequestId::from(4), "workspace/reload".to_string()));
    match &answer.messages[..] {
        [Message::Failure(id, code, text)] => {
            assert_eq!(*id, RequestId::from(4));
            assert_eq!(*code, 123);
            assert_eq!(text, "unhandled method workspace/reload");
        }
        other => panic!("unexpected: {other:?}"),
    }
    assert!(state.handle_message(Incoming::Response).messages.is_empty());
    assert!(state.handle_message(Incoming::Notification).messages.is_empty());
    let request = OptionsRequest { uri: "file:///p/Other.swift".to_string() };
    let answer = state.handle_message(Incoming::SourceKitOptions(RequestId::from(5), request));
    match &answer.messages[..] {
        [Message::Options(_, response)] => {
            assert_eq!(response.options, vec!["-O"]);
            assert_eq!(response.working_directory.as_deref(), Some("file:///p/"));
        }
        other => panic!("unexpected: {other:?}"),
    }
}

#[test]
fn methods_are_told_apart_by_name() {
    assert_eq!(route("textDocument/registerForChanges"), Route::RegisterForChanges);
    assert_eq!(route("textDocument/sourceKitOptions"), Route::SourceKitOptions);
    assert_eq!(route("buildTarget/outputPaths"), Route::OutputPaths);
    assert_eq!(route("buildTarget/sources"), Route::Unhandled);
    assert_eq!(route(""), Route::Unhandled);
    assert_eq!(OPTIONS_CHANGED, "build/sourceKitOptionsChanged");
    assert_eq!(UNHANDLED_CODE, 123);
}

#[test]
fn default_response_names_the_method() {
    match default_response(RequestId::from(9), "foo/bar") {
        Message::Failure(id, code, text) => {
            assert_eq!(id, RequestId::from(9));
            assert_eq!(code, 123);
            assert_eq!(text, "unhandled method foo/bar");
        }
        other => panic!("unexpected: {other:?}"),
    }
}

#[test]
fn register_action_names() {
    assert_eq!(RegisterAction::Register.to_string(), "register");
    assert_eq!(RegisterAction::Unregister.to_string(), "unregister");
    assert_eq!(RegisterAction::from_str("register"), Some(RegisterAction::Register));
    assert_eq!(RegisterAction::from_str("unregister"), Some(RegisterAction::Unregister));
    assert_eq!(RegisterAction::from_str("Register"), None);
}

#[test]
fn extension_values_are_built_from_their_parts() {
    let response = OptionsResponse::new(vec!["-a".to_string()], Some("file:///p/".to_string()));
    assert_eq!(response.options, vec!["-a"]);
    match response.as_response(RequestId::from(1)) {
        Message::Options(id, r) => {
            assert_eq!(id, RequestId::from(1));
            assert_eq!(r.working_directory.as_deref(), Some("file:///p/"));
        }
        other => panic!("unexpected: {other:?}"),
    }
    let n = OptionsChangedNotification::new("file:///p/a".to_string(), vec!["-b".to_string()], None);
    assert_eq!(n.uri, "file:///p/a");
    assert_eq!(n.updated_options.options, vec!["-b"]);
    assert!(n.updated_options.working_directory.is_none());
    let paths = BuildTargetOutputPaths::new("t".to_string(), vec!["file:///out".to_string()]);
    assert_eq!(paths.target, "t");
    let response = BuildTargetOutputPathsResponse::new(vec![paths]);
    match response.as_response(RequestId::from(2)) {
        Message::OutputPaths(_, r) => assert_eq!(r.items[0].output_paths, vec!["file:///out"]),
        other => panic!("unexpected: {other:?}"),
    }
}

#[test]
fn server_is_set_up_from_the_root() {
    assert_eq!(compile_filepath("/p"), "/p/.compile");
    assert_eq!(config_filepath("/p/"), "/p/buildServer.json");
    let paths = index_paths("/cache/App");
    assert_eq!(paths.index_database_path, "/cache/App/indexDatabasePath");
    assert_eq!(paths.index_store_path, "/cache/App/indexStorePath");
    let (mut state, paths) = initialize("/p".to_string(), database("A1"), 5, "/cache/App", None);
    assert_eq!(state.root(), "/p");
    assert_eq!(state.database_path(), "/p/.compile");
    assert_eq!(paths.index_store_path, "/cache/App/indexStorePath");
    assert!(!state.needs_reload(5));
    assert_eq!(state.get_compile_args("/p/Other.swift").unwrap(), vec!["-O"]);
    let (_, paths) =
        initialize("/p".to_string(), vec![], 5, "/cache/App", Some("/custom/store".to_string()));
    assert_eq!(paths.index_store_path, "/custom/store");
    assert_eq!(paths.index_database_path, "/cache/App/indexDatabasePath");
}
