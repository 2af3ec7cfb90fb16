use xbase::client::ClientStore;
use xbase::error::Error;
use xbase::project::{remove_pid, Discovery, ProjectStore};
use xbase::registry::Registry;
use xbase::types::{
    BuildConfiguration, BuildMethod, BuildSettings, Client, DeviceLookup, Operation,
};
use xbase::watch::{BuildRequest, Listener, RunRequest, RunService, WatchService, Watchable};

fn client(pid: i32, root: &str) -> Client {
    Client { pid, root: root.to_string(), address: String::new() }
}

fn found(name: &str) -> Discovery {
    Discovery {
        definitions: vec![format!("{name}.xcodeproj")],
        name: name.to_string(),
        targets: vec![],
        watchignore: vec![],
    }
}

fn listener(pid: i32, scheme: &str) -> Listener {
    Listener::Build(BuildRequest {
        client: client(pid, "/p"),
        settings: BuildSettings {
            method: BuildMethod::WithScheme(scheme.to_string()),
            configuration: BuildConfiguration::Release,
        },
        ops: Operation::Watch,
    })
}

#[test]
fn registry_keeps_insertion_order_and_unique_keys() {
    let mut registry: Registry<u32> = Registry::new();
    assert!(registry.is_empty());
    registry.insert("b".to_string(), 2);
    registry.insert("a".to_string(), 1);
    registry.set("c".to_string(), 3);
    registry.set("b".to_string(), 20);
    assert_eq!(registry.len(), 3);
    assert_eq!(registry.key_at(0), "b");
    assert_eq!(registry.key_at(1), "a");
    assert_eq!(registry.key_at(2), "c");
    assert_eq!(*registry.value_at(0), 20);
    assert_eq!(registry.get("a"), Some(&1));
    assert_eq!(registry.get("z"), None);
    assert_eq!(registry.position("c"), Some(2));
    *registry.get_mut("a").unwrap() += 10;
    assert_eq!(registry.get("a"), Some(&11));
    assert!(registry.get_mut("z").is_none());
    assert_eq!(registry.remove("b"), Some(20));
    assert_eq!(registry.remove("b"), None);
    assert_eq!(registry.key_at(0), "a");
    registry.insert("d".to_string(), 4);
    registry.retain(&vec![true, false, true]);
    assert_eq!(registry.len(), 2);
    assert_eq!(registry.key_at(0), "a");
    assert_eq!(registry.key_at(1), "d");
    assert!(!registry.contains_key("c"));
    assert_eq!(registry.remove_at(0), 11);
    registry.clear();
    assert!(registry.is_empty());
}

#[test]
fn project_store_adds_merges_and_removes() {
    let mut store = ProjectStore::new();
    store.add(&client(1, "/p"), found("P")).unwrap();
    store.add(&client(2, "/p"), found("Other")).unwrap();
    store.add(&client(2, "/p"), found("Other")).unwrap();
    store.add(&client(3, "/q"), found("Q")).unwrap();
    let p = "/p".to_string();
    let q = "/q".to_string();
    assert_eq!(store.get(&p).unwrap().clients(), &vec![1, 2]);
    assert_eq!(store.get(&p).unwrap().name(), "P");
    assert_eq!(store.get(&q).unwrap().clients(), &vec![3]);
    let mut nothing = found("X");
    nothing.definitions.clear();
    assert!(matches!(store.add(&client(4, "/x"), nothing), Err(Error::DefinitionLocating)));
    assert!(!store.contains_root("/x"));

    store.get_mut(&q).unwrap().attach(9);
    assert_eq!(store.get(&q).unwrap().clients(), &vec![3, 9]);
    store.get_mut(&q).unwrap().detach(3);
    assert_eq!(store.get(&q).unwrap().clients(), &vec![9]);
    let missing = "/none".to_string();
    match store.get(&missing) {
        Err(Error::NotFound(kind, key)) => {
            assert_eq!(kind, "Project");
            assert_eq!(key, "/none");
        }
        other => panic!("unexpected: {other:?}"),
    }
    assert!(matches!(store.get_mut(&missing), Err(Error::NotFound(_, _))));

    assert!(store.remove(&client(7, "/p")).unwrap().is_none());
    assert_eq!(store.get(&p).unwrap().clients(), &vec![1, 2]);
    assert!(store.remove(&client(1, "/p")).unwrap().is_none());
    let removed = store.remove(&client(2, "/p")).unwrap().unwrap();
    assert_eq!(removed.root(), "/p");
    assert!(!store.contains_root("/p"));
    assert!(matches!(store.remove(&client(2, "/p")), Err(Error::NotFound(_, _))));
}

#[test]
fn pids_are_removed_in_order() {
    assert_eq!(remove_pid(&vec![1, 2, 1, 3], 1), vec![2, 3]);
    assert_eq!(remove_pid(&vec![1, 2], 5), vec![1, 2]);
    assert_eq!(remove_pid(&vec![], 5), Vec::<i32>::new());
}

#[test]
fn client_store_flags_and_messages() {
    let mut clients = ClientStore::new();
    clients.add(&client(1, "/p"));
    clients.add(&client(2, "/q"));
    clients.add(&client(3, "/p"));
    clients.add(&Client { pid: 1, root: "/elsewhere".to_string(), address: String::new() });
    assert_eq!(clients.get(&1).unwrap().client.root, "/p");
    assert!(!clients.get(&1).unwrap().watching);
    clients.set_watching(1, true).unwrap();
    clients.set_watching(1, true).unwrap();
    assert!(clients.get(&1).unwrap().watching);
    assert!(!clients.get(&3).unwrap().watching);
    match clients.set_watching(8, true) {
        Err(Error::NotFound(kind, key)) => {
            assert_eq!(kind, "Client");
            assert_eq!(key, "8");
        }
        other => panic!("unexpected: {other:?}"),
    }
    let echoes = clients.echo_msg("/p", "p", "hello");
    assert_eq!(echoes.len(), 2);
    assert_eq!((echoes[0].pid, echoes[1].pid), (1, 3));
    assert_eq!(echoes[0].scope, "p");
    assert_eq!(echoes[1].text, "hello");
    assert!(clients.echo_msg("/none", "n", "x").is_empty());
    let echo = clients.echo_err(2, "failed").unwrap();
    assert!(echo.error);
    assert_eq!(echo.text, "failed");
    assert!(matches!(clients.echo_err(-4, "failed"), Err(Error::NotFound(_, _))));
    assert_eq!(clients.sync_client_state(), vec![(1, true), (2, false), (3, false)]);

    let mut service = WatchService::new();
    service.add(listener(3, "App")).unwrap();
    clients.sync("/p", &service);
    assert_eq!(clients.sync_client_state(), vec![(1, false), (2, false), (3, true)]);
    let removed = clients.remove(1).unwrap();
    assert_eq!(removed.client.pid, 1);
    assert!(clients.remove(1).is_none());
    assert!(!clients.contains_key(1));
    match clients.get(&1) {
        Err(Error::NotFound(_, key)) => assert_eq!(key, "1"),
        other => panic!("unexpected: {other:?}"),
    }
}

#[test]
fn watch_service_does_not_replace() {
    let mut service = WatchService::new();
    service.add(listener(1, "App")).unwrap();
    service.add(listener(2, "App")).unwrap();
    service.add(listener(2, "Lib")).unwrap();
    assert_eq!(service.len(), 2);
    let key = "Build:Release:WithScheme(App)".to_string();
    assert_eq!(service.get(&key).unwrap().pid(), 1);
    assert!(service.has_listener_of(1));
    assert!(service.has_listener_of(2));
    assert!(!service.has_listener_of(3));
    let listeners = service.listeners();
    assert_eq!(listeners.len(), 2);
    assert_eq!(listeners[1].to_string(), "Build:Release:WithScheme(Lib)");
    let removed = service.remove(&key).unwrap();
    assert_eq!(removed.pid(), 1);
    assert!(!service.contains_key(&key));
    match service.remove(&key) {
        Err(Error::NotFound(kind, k)) => {
            assert_eq!(kind, "Watchable");
            assert_eq!(k, key);
        }
        other => panic!("unexpected: {other:?}"),
    }
    assert!(!service.has_listener_of(1));
}

#[test]
fn run_service_keeps_the_request() {
    let request = RunRequest {
        client: client(5, "/p"),
        settings: BuildSettings {
            method: BuildMethod::WithTarget("Core".to_string()),
            configuration: BuildConfiguration::Debug,
        },
        device: DeviceLookup { name: Some("iPhone".to_string()), udid: None },
        ops: Operation::Watch,
    };
    let service = RunService::new(&request);
    assert_eq!(service.client.pid, 5);
    assert_eq!(service.device.name.as_deref(), Some("iPhone"));
    assert_eq!(service.to_string(), "Run:Debug:WithTarget(Core)");
    assert_eq!(service.to_string(), request.to_string());
    let device = DeviceLookup::default();
    assert!(device.name.is_none() && device.udid.is_none());
}
