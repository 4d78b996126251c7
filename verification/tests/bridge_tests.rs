use runtime_bridge::bridge::{
    complete_method_call, echo_first, print_something_action, response_for_dispatch, Bridge,
};
use runtime_bridge::errors::{DispatchError, EnvError, LoadError, ResolveError};
use runtime_bridge::proxy::{run_with_outcomes, MethodDef, ProxyDefinition};
use runtime_bridge::queue::JobMessage;
use runtime_bridge::resolver::{Dialect, FetchPlan, LoaderStrategy, Resolver};
use runtime_bridge::values::ScriptValue;

fn bytes(s: &str) -> Vec<u8> {
    s.as_bytes().to_vec()
}

fn path() -> Vec<String> {
    vec!["com".to_string(), "mycompany".to_string()]
}

fn standard_resolver() -> Resolver {
    let mut r = Resolver::new();
    r.add_strategy(LoaderStrategy::FileSystem { root: bytes("./modules") });
    r.add_strategy(LoaderStrategy::Network {
        secure_only: true,
        allowed_hosts: vec![bytes("github.com")],
    });
    r
}

fn my_app_definition() -> ProxyDefinition {
    ProxyDefinition {
        namespace: path(),
        name: "MyApp".to_string(),
        methods: vec![MethodDef { name: "increment".to_string(), host_fn: 7 }],
        event_target: true,
    }
}

/// Walks a fresh bridge through the whole startup sequence up to serving.
fn serving_bridge() -> Bridge {
    let mut b = Bridge::new();
    b.configure(standard_resolver(), Dialect::Es2020);
    assert!(matches!(b.install_proxy(my_app_definition()), Ok(())));
    b.finish_installation();
    match b.plan_fetch(&bytes("file://main.ts")) {
        Ok(FetchPlan::ReadFile { path }) => assert_eq!(path, bytes("./modules/main.ts")),
        other => panic!("entry module must resolve, got {:?}", other),
    }
    assert!(matches!(b.load_entry_module(bytes("file://main.ts"), Ok(())), Ok(())));
    b.start_serving();
    b
}

#[test]
fn startup_sequence_reaches_serving() {
    let b = serving_bridge();
    assert!(b.accepts_requests());
}

#[test]
fn requests_are_refused_before_serving() {
    let mut b = Bridge::new();
    b.configure(standard_resolver(), Dialect::Es2020);
    assert!(!b.accepts_requests());
    let r = b.enqueue_request_dispatch(
        path(),
        "MyApp".to_string(),
        "request".to_string(),
        ScriptValue::Null,
    );
    assert!(matches!(r, Err(EnvError::Unavailable)));
}

#[test]
fn failed_entry_module_is_fatal_for_serving() {
    let mut b = Bridge::new();
    b.configure(standard_resolver(), Dialect::Es2020);
    b.finish_installation();
    let boom = LoadError::Env(EnvError::ScriptRaised(ScriptValue::Str("SyntaxError".to_string())));
    let r = b.load_entry_module(bytes("file://broken.ts"), Err(boom));
    assert!(matches!(r, Err(LoadError::Env(EnvError::ScriptRaised(_)))));
    assert!(!b.accepts_requests());
}

#[test]
fn entry_module_outside_root_fails_resolution() {
    let mut b = Bridge::new();
    b.configure(standard_resolver(), Dialect::Es2020);
    let r = b.plan_fetch(&bytes("file://../main.ts"));
    assert!(matches!(r, Err(ResolveError::PolicyRejected)));
}

#[test]
fn draining_refuses_new_requests() {
    let mut b = serving_bridge();
    b.begin_draining();
    let r = b.enqueue_request_dispatch(
        path(),
        "MyApp".to_string(),
        "request".to_string(),
        ScriptValue::Null,
    );
    assert!(matches!(r, Err(EnvError::Unavailable)));
}

#[test]
fn fifty_request_events_reach_the_counter_host_method() {
    let mut b = serving_bridge();
    // One listener for "request"; its body calls the counter-increment host
    // method of the installed proxy.
    b.registry
        .add_event_listener(&path(), &"MyApp".to_string(), "request".to_string(), 42)
        .unwrap();
    let mut counter: u64 = 0;
    for _ in 0..50 {
        let id = b
            .enqueue_request_dispatch(
                path(),
                "MyApp".to_string(),
                "request".to_string(),
                ScriptValue::Null,
            )
            .unwrap();
        // The loop takes the one pending job and performs the dispatch.
        let job = b.queue.begin_next().expect("a dispatch job is pending");
        assert_eq!(job.id, id);
        match job.message {
            JobMessage::DispatchEvent { namespace, name, event, payload } => {
                let mut run = b
                    .registry
                    .begin_dispatch(&namespace, &name, &event, payload)
                    .unwrap();
                while let Some(listener) = run.next_listener() {
                    assert_eq!(listener, 42);
                    // The listener body invokes the host method.
                    let host_fn = b
                        .registry
                        .method_target(&namespace, &name, &"increment".to_string())
                        .expect("the installed method is callable");
                    assert_eq!(host_fn, 7);
                    counter += 1;
                    run.record_outcome(false);
                }
                assert_eq!(run.verdict(), Some(false));
            },
            other => panic!("expected a dispatch job, got {:?}", other_name(&other)),
        }
        assert!(b.queue.finish_running());
    }
    assert_eq!(counter, 50);
}

fn other_name(m: &JobMessage) -> &'static str {
    match m {
        JobMessage::InstallProxy(_) => "install",
        JobMessage::EvaluateModule { .. } => "evaluate",
        JobMessage::DispatchEvent { .. } => "dispatch",
    }
}

#[test]
fn a_string_argument_rides_the_round_trip_unchanged() {
    // A host method that returns its string argument unchanged yields the
    // identical string back to the script caller.
    let arg = ScriptValue::Str("round trip me".to_string());
    let args = vec![arg.clone()];
    let returned = echo_first(&args);
    assert!(returned.eq_value(&args[0]));
    match complete_method_call(Ok(returned)) {
        Ok(ScriptValue::Str(s)) => assert_eq!(s, "round trip me"),
        other => panic!("expected the string back, got {:?}", other),
    }
}

#[test]
fn host_errors_propagate_as_script_visible_errors() {
    let raised = ScriptValue::Str("boom".to_string());
    match complete_method_call(Err(raised)) {
        Err(EnvError::ScriptRaised(ScriptValue::Str(s))) => assert_eq!(s, "boom"),
        other => panic!("expected the raised value, got {:?}", other),
    }
}

#[test]
fn print_something_logs_only_strings() {
    let (logged, ret) = print_something_action(&vec![ScriptValue::Str("hi".to_string())]);
    assert_eq!(logged, Some("hi".to_string()));
    assert!(matches!(ret, ScriptValue::Undefined));

    let (logged_num, ret_num) = print_something_action(&vec![ScriptValue::Num(3)]);
    assert_eq!(logged_num, None);
    assert!(matches!(ret_num, ScriptValue::Undefined));

    let (logged_none, _) = print_something_action(&Vec::new());
    assert_eq!(logged_none, None);
}

#[test]
fn every_request_is_answered_the_same_way() {
    let (body_ok, log_ok) = response_for_dispatch(&Ok(true));
    assert_eq!(body_ok, "hello there");
    assert!(!log_ok);
    let (body_err, log_err) = response_for_dispatch(&Err(DispatchError::UnknownTarget));
    assert_eq!(body_err, "hello there");
    assert!(log_err);
    let raised = DispatchError::ListenerFailed("listener threw".to_string());
    let (body_raised, log_raised) = response_for_dispatch(&Err(raised));
    assert_eq!(body_raised, "hello there");
    assert!(log_raised);
}

#[test]
fn value_conversions_never_coerce() {
    assert!(ScriptValue::Str("x".to_string()).is_string());
    assert!(!ScriptValue::Num(1).is_string());
    assert_eq!(ScriptValue::Str("x".to_string()).as_str(), Some(&"x".to_string()));
    assert_eq!(ScriptValue::Num(1).as_str(), None);
    assert_eq!(ScriptValue::Bool(true).as_str(), None);
    assert!(ScriptValue::Null.eq_value(&ScriptValue::Null));
    assert!(!ScriptValue::Null.eq_value(&ScriptValue::Undefined));
    assert!(!ScriptValue::Num(1).eq_value(&ScriptValue::Num(2)));
    assert!(ScriptValue::Obj(3).eq_value(&ScriptValue::Obj(3)));
}
