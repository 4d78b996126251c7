use runtime_bridge::errors::{DispatchError, InstallError};
use runtime_bridge::proxy::{
    run_with_outcomes, MethodDef, ProxyDefinition, Registry,
};
use runtime_bridge::values::ScriptValue;

fn my_app_definition() -> ProxyDefinition {
    ProxyDefinition {
        namespace: vec!["com".to_string(), "mycompany".to_string()],
        name: "MyApp".to_string(),
        methods: vec![MethodDef { name: "printSomething".to_string(), host_fn: 7 }],
        event_target: true,
    }
}

fn path() -> Vec<String> {
    vec!["com".to_string(), "mycompany".to_string()]
}

#[test]
fn install_binds_the_proxy() {
    let mut reg = Registry::new();
    assert!(matches!(reg.install(my_app_definition()), Ok(())));
    assert!(reg.lookup(&path(), &"MyApp".to_string()).is_some());
    assert_eq!(
        reg.method_target(&path(), &"MyApp".to_string(), &"printSomething".to_string()),
        Some(7)
    );
}

#[test]
fn second_install_at_same_path_fails_and_first_stays_callable() {
    let mut reg = Registry::new();
    assert!(matches!(reg.install(my_app_definition()), Ok(())));
    // Same namespace path and object name, different method table.
    let second = ProxyDefinition {
        namespace: path(),
        name: "MyApp".to_string(),
        methods: vec![MethodDef { name: "other".to_string(), host_fn: 99 }],
        event_target: false,
    };
    assert!(matches!(reg.install(second), Err(InstallError::DuplicatePath)));
    // The first installation's methods are still callable, the usurper's not.
    assert_eq!(
        reg.method_target(&path(), &"MyApp".to_string(), &"printSomething".to_string()),
        Some(7)
    );
    assert_eq!(reg.method_target(&path(), &"MyApp".to_string(), &"other".to_string()), None);
}

#[test]
fn same_name_under_other_namespace_installs_fine() {
    let mut reg = Registry::new();
    assert!(matches!(reg.install(my_app_definition()), Ok(())));
    let elsewhere = ProxyDefinition {
        namespace: vec!["org".to_string(), "elsewhere".to_string()],
        name: "MyApp".to_string(),
        methods: vec![],
        event_target: false,
    };
    assert!(matches!(reg.install(elsewhere), Ok(())));
}

#[test]
fn method_lookup_misses() {
    let mut reg = Registry::new();
    assert!(matches!(reg.install(my_app_definition()), Ok(())));
    assert_eq!(reg.method_target(&path(), &"MyApp".to_string(), &"nope".to_string()), None);
    assert_eq!(
        reg.method_target(&path(), &"Other".to_string(), &"printSomething".to_string()),
        None
    );
}

#[test]
fn dispatch_to_unknown_target_fails() {
    let reg = Registry::new();
    let res = reg.begin_dispatch(
        &path(),
        &"MyApp".to_string(),
        &"request".to_string(),
        ScriptValue::Null,
    );
    assert!(matches!(res, Err(DispatchError::UnknownTarget)));
}

#[test]
fn dispatch_to_non_event_target_fails() {
    let mut reg = Registry::new();
    let mut def = my_app_definition();
    def.event_target = false;
    assert!(matches!(reg.install(def), Ok(())));
    let res = reg.begin_dispatch(
        &path(),
        &"MyApp".to_string(),
        &"request".to_string(),
        ScriptValue::Null,
    );
    assert!(matches!(res, Err(DispatchError::NotEventTarget)));
}

#[test]
fn add_listener_to_non_event_target_fails() {
    let mut reg = Registry::new();
    let mut def = my_app_definition();
    def.event_target = false;
    assert!(matches!(reg.install(def), Ok(())));
    let res = reg.add_event_listener(&path(), &"MyApp".to_string(), "request".to_string(), 1);
    assert!(matches!(res, Err(DispatchError::NotEventTarget)));
}

#[test]
fn veto_stops_later_listeners_and_removal_lets_them_run() {
    let mut reg = Registry::new();
    assert!(matches!(reg.install(my_app_definition()), Ok(())));
    let name = "MyApp".to_string();
    let ev = "request".to_string();
    let _h1 = reg.add_event_listener(&path(), &name, ev.clone(), 1).unwrap();
    let h2 = reg.add_event_listener(&path(), &name, ev.clone(), 2).unwrap();
    let _h3 = reg.add_event_listener(&path(), &name, ev.clone(), 3).unwrap();

    // Listener 2 vetoes: listener 3 must not run; the dispatch reports true.
    let mut run = reg.begin_dispatch(&path(), &name, &ev, ScriptValue::Null).unwrap();
    let (vetoed, invoked) = run_with_outcomes(&mut run, &vec![false, true, false]);
    assert!(vetoed);
    assert_eq!(invoked, vec![1, 2]);

    // Removing listener 2 and re-dispatching lets listener 3 run.
    assert!(matches!(reg.remove_event_listener(&path(), &name, h2), Ok(true)));
    let mut run2 = reg.begin_dispatch(&path(), &name, &ev, ScriptValue::Null).unwrap();
    let (vetoed2, invoked2) = run_with_outcomes(&mut run2, &vec![false, false]);
    assert!(!vetoed2);
    assert_eq!(invoked2, vec![1, 3]);
}

#[test]
fn removing_a_dead_handle_removes_nothing() {
    let mut reg = Registry::new();
    assert!(matches!(reg.install(my_app_definition()), Ok(())));
    let name = "MyApp".to_string();
    let h = reg.add_event_listener(&path(), &name, "request".to_string(), 5).unwrap();
    assert!(matches!(reg.remove_event_listener(&path(), &name, h), Ok(true)));
    assert!(matches!(reg.remove_event_listener(&path(), &name, h), Ok(false)));
    assert!(matches!(reg.remove_event_listener(&path(), &name, 1000), Ok(false)));
}

#[test]
fn listeners_are_kept_per_event_name() {
    let mut reg = Registry::new();
    assert!(matches!(reg.install(my_app_definition()), Ok(())));
    let name = "MyApp".to_string();
    reg.add_event_listener(&path(), &name, "request".to_string(), 1).unwrap();
    reg.add_event_listener(&path(), &name, "shutdown".to_string(), 2).unwrap();
    reg.add_event_listener(&path(), &name, "request".to_string(), 3).unwrap();
    let mut run = reg
        .begin_dispatch(&path(), &name, &"request".to_string(), ScriptValue::Null)
        .unwrap();
    let (vetoed, invoked) = run_with_outcomes(&mut run, &vec![false, false]);
    assert!(!vetoed);
    assert_eq!(invoked, vec![1, 3]);
}

#[test]
fn the_payload_reaches_listeners_unchanged() {
    let mut reg = Registry::new();
    assert!(matches!(reg.install(my_app_definition()), Ok(())));
    let name = "MyApp".to_string();
    reg.add_event_listener(&path(), &name, "request".to_string(), 1).unwrap();
    let payload = ScriptValue::Str("the event payload".to_string());
    let run = reg
        .begin_dispatch(&path(), &name, &"request".to_string(), payload.clone())
        .unwrap();
    assert!(run.payload.eq_value(&payload));
}

#[test]
fn incremental_dispatch_protocol() {
    let mut reg = Registry::new();
    assert!(matches!(reg.install(my_app_definition()), Ok(())));
    let name = "MyApp".to_string();
    reg.add_event_listener(&path(), &name, "request".to_string(), 10).unwrap();
    reg.add_event_listener(&path(), &name, "request".to_string(), 20).unwrap();
    let mut run = reg
        .begin_dispatch(&path(), &name, &"request".to_string(), ScriptValue::Null)
        .unwrap();
    assert_eq!(run.verdict(), None);
    assert_eq!(run.next_listener(), Some(10));
    run.record_outcome(false);
    assert_eq!(run.next_listener(), Some(20));
    run.record_outcome(true);
    assert_eq!(run.next_listener(), None);
    assert_eq!(run.verdict(), Some(true));
}
