use xbase::editor::{notification, Level};
use xbase::error::Error;
use xbase::path::abbreviate;
use xbase::text::{decimal_string, eq_ignore_ascii_case, join_path, same_text};
use xbase::types::{
    BufferDirection, BuildConfiguration, BuildMethod, BuildSettings, Client, Input, Operation,
};
use xbase::words::{split_lines, split_whitespace, trim};
use xbase::xcode::{step_lines, StepKind, XConfiguration};

#[test]
fn decimal_notation() {
    assert_eq!(decimal_string(0), "0");
    assert_eq!(decimal_string(7), "7");
    assert_eq!(decimal_string(10), "10");
    assert_eq!(decimal_string(1203), "1203");
    assert_eq!(decimal_string(-45), "-45");
    assert_eq!(decimal_string(i64::MAX), "9223372036854775807");
    assert_eq!(decimal_string(i64::MIN), "-9223372036854775808");
}

#[test]
fn whitespace_splitting() {
    assert_eq!(split_whitespace("a b  c"), vec!["a", "b", "c"]);
    assert_eq!(split_whitespace("  lead and trail \n"), vec!["lead", "and", "trail"]);
    assert_eq!(split_whitespace(""), Vec::<String>::new());
    assert_eq!(split_whitespace(" \t\u{a0}\u{3000} "), Vec::<String>::new());
    assert_eq!(split_whitespace("one"), vec!["one"]);
    let text = "x\u{2003}y\u{85}z\u{200b}w";
    let expected: Vec<String> = text.split_whitespace().map(|s| s.to_string()).collect();
    assert_eq!(split_whitespace(text), expected);
}

#[test]
fn trimming() {
    assert_eq!(trim("  a b \n"), "a b");
    assert_eq!(trim(""), "");
    assert_eq!(trim(" \t "), "");
    assert_eq!(trim("x"), "x");
    assert_eq!(trim("\u{2028}x y\u{a0}"), "x y");
}

#[test]
fn line_splitting() {
    assert_eq!(split_lines("a\nb"), vec!["a", "b"]);
    assert_eq!(split_lines(""), vec![""]);
    assert_eq!(split_lines("a\n"), vec!["a", ""]);
    assert_eq!(split_lines("\n\nx"), vec!["", "", "x"]);
    assert_eq!(split_lines("single"), vec!["single"]);
}

#[test]
fn text_comparison() {
    assert!(same_text("abc", "abc"));
    assert!(!same_text("abc", "abd"));
    assert!(!same_text("abc", "ab"));
    assert!(eq_ignore_ascii_case("TabEdit", "tabedit"));
    assert!(eq_ignore_ascii_case("", ""));
    assert!(!eq_ignore_ascii_case("tab", "tabs"));
    assert!(!eq_ignore_ascii_case("[", "{"));
    assert!(!eq_ignore_ascii_case("@", "`"));
}

#[test]
fn root_abbreviation() {
    let short = |root: &str| abbreviate(root);
    assert_eq!(short("/Users/me/code/App"), "me/code/App");
    assert_eq!(short("/a/b/c"), "a/b/c");
    assert_eq!(short("/a/b"), "");
    assert_eq!(short("a/b/c"), "a/b/c");
    assert_eq!(short("a/b/c/d"), "b/c/d");
    assert_eq!(short("a/b"), "");
    assert_eq!(short(""), "");
    assert_eq!(short("/"), "");
    assert_eq!(short("/x/a/b/c/"), "a/b/c");
    assert_eq!(short("/x/a//b/./c"), "a//b/./c");
    assert_eq!(short("./a/b"), "./a/b");
    assert_eq!(short("./a/b/c"), "a/b/c");
    assert_eq!(short("/./a/b"), "");
    assert_eq!(short("/a/../b/c"), "../b/c");
}

#[test]
fn root_abbreviation_agrees_with_path_ancestors() {
    let roots = [
        "/Users/me/code/App",
        "/a/b/c",
        "/a/b",
        "a/b/c",
        "a/b/c/d",
        "",
        "/",
        "/x/a/b/c/",
        "/x/a//b/./c",
        "./a/b",
        "./a/b/c",
        "/./a/b",
        "a/./b/c/.",
        "//a//b//c//d//",
        ".",
        "..",
        "../../..",
    ];
    for root in roots {
        let path = std::path::Path::new(root);
        let expected = match path.ancestors().nth(3) {
            Some(prefix) => match path.strip_prefix(prefix) {
                Ok(rest) => rest.display().to_string(),
                Err(_) => String::new(),
            },
            None => String::new(),
        };
        assert_eq!(abbreviate(root), expected, "root {root:?}");
    }
}

#[test]
fn client_root_defaults_to_the_working_directory() {
    let given = Client::new(1, "addr".to_string(), Some("/p/q/r/s".to_string()), "/cwd".to_string());
    assert_eq!(given.root, "/p/q/r/s");
    assert_eq!(given.abbrev_root(), "q/r/s");
    let fallback = Client::new(2, "addr".to_string(), None, "/cwd".to_string());
    assert_eq!(fallback.root, "/cwd");
    assert_eq!(fallback.pid, 2);
    assert_eq!(fallback.address, "addr");
    assert_eq!(fallback.abbrev_root(), "");
}

#[test]
fn path_joining() {
    assert_eq!(join_path("/p", ".compile"), "/p/.compile");
    assert_eq!(join_path("/p/", ".compile"), "/p/.compile");
    assert_eq!(join_path("", ".compile"), ".compile");
    assert_eq!(join_path("/", "x"), "/x");
}

fn settings(method: BuildMethod, configuration: BuildConfiguration) -> BuildSettings {
    BuildSettings { method, configuration }
}

#[test]
fn settings_as_command_line() {
    let scheme = settings(BuildMethod::WithScheme("App".to_string()), BuildConfiguration::Debug);
    assert_eq!(scheme.to_string(), "-configuration Debug -scheme \"App\"");
    assert_eq!(scheme.to_args(), vec!["-configuration", "Debug", "-scheme", "\"App\""]);
    assert_eq!(scheme.scheme(), Some("App"));
    assert_eq!(scheme.target(), None);
    let target = settings(
        BuildMethod::WithTarget("My Lib".to_string()),
        BuildConfiguration::Custom("Staging".to_string()),
    );
    assert_eq!(target.to_string(), "-configuration Custom -target \"My Lib\"");
    assert_eq!(target.to_args(), vec!["-configuration", "Custom", "-target", "\"My", "Lib\""]);
    assert_eq!(target.scheme(), None);
    assert_eq!(target.target(), Some("My Lib"));
    assert_eq!(target.identity(), "Custom(Staging):WithTarget(My Lib)");
}

#[test]
fn method_texts() {
    let scheme = BuildMethod::WithScheme("App".to_string());
    let target = BuildMethod::WithTarget("Core".to_string());
    assert_eq!(scheme.format_for_log_info(), "scheme: App");
    assert_eq!(target.format_for_log_info(), "target: Core");
    assert_eq!(scheme.scheme_or_target(), "App");
    assert_eq!(target.scheme_or_target(), "Core");
    assert_eq!(scheme.identity(), "WithScheme(App)");
}

#[test]
fn operation_names_round_trip() {
    for op in [Operation::Watch, Operation::Stop, Operation::Once] {
        assert_eq!(Operation::from_str(&op.to_string()), Some(op));
    }
    assert_eq!(Operation::from_str("watch"), None);
    assert_eq!(Operation::default(), Operation::Once);
    assert!(Operation::Watch.is_watch() && !Operation::Watch.is_stop() && !Operation::Watch.is_once());
    assert!(Operation::Stop.is_stop() && !Operation::Stop.is_watch());
    assert!(Operation::Once.is_once() && !Operation::Once.is_stop());
}

#[test]
fn configuration_names() {
    assert_eq!(BuildConfiguration::Debug.to_string(), "Debug");
    assert_eq!(BuildConfiguration::Release.to_string(), "Release");
    assert_eq!(BuildConfiguration::Custom("X".to_string()).to_string(), "Custom");
    assert!(matches!(BuildConfiguration::from_str("Debug"), Some(BuildConfiguration::Debug)));
    assert!(matches!(BuildConfiguration::from_str("Release"), Some(BuildConfiguration::Release)));
    match BuildConfiguration::from_str("Custom") {
        Some(BuildConfiguration::Custom(name)) => assert_eq!(name, ""),
        other => panic!("unexpected: {other:?}"),
    }
    assert!(BuildConfiguration::from_str("debug").is_none());
}

#[test]
fn values_from_a_script() {
    let text = |t: &str| Input::Text(t.to_string());
    assert!(matches!(BuildConfiguration::from_input(&text("Release")), Ok(BuildConfiguration::Release)));
    match BuildConfiguration::from_input(&text("nope")) {
        Err(Error::Unexpected(m)) => assert_eq!(m, "Matching variant not found"),
        other => panic!("unexpected: {other:?}"),
    }
    match BuildConfiguration::from_input(&Input::Nil) {
        Err(Error::Unexpected(m)) => assert_eq!(m, "Expected a string value for BuildConfiguration"),
        other => panic!("unexpected: {other:?}"),
    }
    assert!(matches!(Operation::from_input(&text("Stop")), Ok(Operation::Stop)));
    assert!(matches!(Operation::from_input(&Input::Nil), Ok(Operation::Once)));
    assert!(matches!(Operation::from_input(&Input::Other), Ok(Operation::Once)));
    assert!(Operation::from_input(&text("stop")).is_err());
    assert!(matches!(BufferDirection::from_input(&text("VERTICAL")), Ok(BufferDirection::Vertical)));
    assert!(matches!(BufferDirection::from_input(&Input::Other), Ok(BufferDirection::Default)));
    assert!(BufferDirection::from_input(&text("sideways")).is_err());
    assert!(matches!(XConfiguration::from_input(&text("debug")), Ok(XConfiguration::Debug)));
    assert!(matches!(XConfiguration::from_input(&text("Release")), Ok(XConfiguration::Release)));
    match XConfiguration::from_input(&text("Staging")) {
        Ok(XConfiguration::Custom(name)) => assert_eq!(name, "Staging"),
        other => panic!("unexpected: {other:?}"),
    }
    assert!(matches!(XConfiguration::from_input(&Input::Nil), Ok(XConfiguration::Debug)));
    match XConfiguration::from_input(&Input::Other) {
        Err(Error::Unexpected(m)) => assert_eq!(m, "Expected a table got XConfiguration"),
        other => panic!("unexpected: {other:?}"),
    }
}

#[test]
fn settings_from_fields() {
    let scheme = BuildSettings::from_fields(Some("App".to_string()), None, BuildConfiguration::Debug)
        .unwrap();
    assert!(matches!(scheme.method, BuildMethod::WithScheme(ref s) if s == "App"));
    let target = BuildSettings::from_fields(None, Some("Core".to_string()), BuildConfiguration::Release)
        .unwrap();
    assert!(matches!(target.method, BuildMethod::WithTarget(ref t) if t == "Core"));
    assert!(matches!(target.configuration, BuildConfiguration::Release));
    match BuildSettings::from_fields(Some("a".to_string()), Some("b".to_string()), BuildConfiguration::Debug) {
        Err(Error::Unexpected(m)) => {
            assert_eq!(m, "Expected either BuildSettings.scheme or BuildSettings.target, got both")
        }
        other => panic!("unexpected: {other:?}"),
    }
    match BuildSettings::from_fields(None, None, BuildConfiguration::Debug) {
        Err(Error::Unexpected(m)) => {
            assert_eq!(m, "Expected value BuildSettings.scheme or BuildSettings.target not found")
        }
        other => panic!("unexpected: {other:?}"),
    }
}

#[test]
fn buffer_commands() {
    assert_eq!(BufferDirection::Default.to_nvim_command(12), "sbuffer 12");
    assert_eq!(BufferDirection::Vertical.to_nvim_command(3), "vert sbuffer 3");
    assert_eq!(BufferDirection::Horizontal.to_nvim_command(0), "sbuffer 0");
    assert_eq!(BufferDirection::TabEdit.to_nvim_command(-1), "tabe -1");
    assert_eq!(BufferDirection::from_str("tabedit"), Some(BufferDirection::TabEdit));
    assert_eq!(BufferDirection::from_str("horizontal"), Some(BufferDirection::Horizontal));
    assert_eq!(BufferDirection::from_str("Default"), Some(BufferDirection::Default));
    assert_eq!(BufferDirection::from_str("tab"), None);
    assert_eq!(BufferDirection::default(), BufferDirection::Default);
}

#[test]
fn xcode_build_configuration_as_command_line() {
    let mut config = xbase::xcode::BuildConfiguration::default();
    assert_eq!(config.to_string(), "xcodebuild -configuration Debug");
    config.sysroot = Some("/sdk".to_string());
    config.scheme = Some("App".to_string());
    config.target = Some("Core".to_string());
    config.configuration = XConfiguration::Custom("Staging".to_string());
    assert_eq!(
        config.to_string(),
        "xcodebuild -configuration Custom -sysroot /sdk -scheme App -target Core"
    );
}

#[test]
fn steps_become_log_lines() {
    assert_eq!(step_lines(StepKind::Exit, "0"), Vec::<String>::new());
    assert_eq!(
        step_lines(StepKind::Verdict, " BUILD SUCCEEDED \n"),
        vec!["BUILD SUCCEEDED ----------------------------------------------------"]
    );
    assert_eq!(
        step_lines(StepKind::Other, "  [App] Compiling\n    main.swift \n"),
        vec!["[App] Compiling", "    main.swift"]
    );
    assert_eq!(step_lines(StepKind::Other, " \n "), Vec::<String>::new());
    assert_eq!(
        step_lines(StepKind::Verdict, ""),
        vec![" ----------------------------------------------------"]
    );
}

#[test]
fn editor_notifications() {
    assert_eq!(notification("built"), "⋇ XBase: built");
    assert_eq!(Level::Trace.to_number(), 0);
    assert_eq!(Level::Debug.to_number(), 1);
    assert_eq!(Level::Info.to_number(), 2);
    assert_eq!(Level::Warn.to_number(), 3);
    assert_eq!(Level::Error.to_number(), 4);
}

#[test]
fn error_messages() {
    assert_eq!(Error::missing("Project", "/p").message(), "Project with (/p) not found");
    assert_eq!(Error::DefinitionLocating.message(), "Failed to locate project definition");
    assert_eq!(Error::Build("x".to_string()).message(), "Build: x");
    assert_eq!(Error::Unexpected("y".to_string()).message(), "Unexpected: y");
}
