use spisharp::JavaFnId;
use spisharp::LibState;
use spisharp::ObjectId;
use std::rc::Rc;

type State = LibState<&'static str, &'static str, Rc<String>>;

#[test]
fn create_gives_an_empty_state() {
    let state: Box<State> = LibState::create();
    assert_eq!(state.java_static_fns.len(), 0);
    assert_eq!(state.java_methods.len(), 0);
    assert_eq!(state.java_objs.len(), 0);
    assert!(state.java_ref.is_none());
}

#[test]
fn a_static_call_needs_a_known_identifier() {
    let state: Box<State> = LibState::create();
    let failure = state.call_static_java_fn(JavaFnId(0)).unwrap_err();
    assert_eq!(failure.to_string(), "Unable to find static method with id");
}

#[test]
fn a_static_call_gets_the_resolved_handle() {
    let mut state: Box<State> = LibState::create();
    let id = state.java_static_fns.resolve("Calc", "add", Some("Calc.add")).unwrap();
    assert_eq!(state.call_static_java_fn(id).unwrap(), &"Calc.add");
    assert!(state.call_static_java_fn(JavaFnId(id.0 + 1)).is_err());
}

#[test]
fn static_functions_and_methods_are_kept_apart() {
    let mut state: Box<State> = LibState::create();
    let id = state.java_static_fns.resolve("Calc", "add", Some("static")).unwrap();
    let receiver = state.java_objs.register(Rc::new("receiver".to_string())).unwrap();
    let failure = state.call_java_method_fn(receiver, id).unwrap_err();
    assert_eq!(failure.to_string(), "Unable to find static method with id");
}

#[test]
fn a_method_call_gets_receiver_and_handle() {
    let mut state: Box<State> = LibState::create();
    let method = state.java_methods.resolve("Calc", "total", Some("Calc#total")).unwrap();
    let receiver = state.java_objs.register(Rc::new("a calc".to_string())).unwrap();
    let (object, handle) = state.call_java_method_fn(receiver, method).unwrap();
    assert_eq!(object.as_str(), "a calc");
    assert_eq!(handle, &"Calc#total");
}

#[test]
fn the_receiver_is_checked_before_the_method() {
    let mut state: Box<State> = LibState::create();
    let method = state.java_methods.resolve("Calc", "total", Some("Calc#total")).unwrap();
    let unknown = state.call_java_method_fn(ObjectId(0), method).unwrap_err();
    assert_eq!(unknown.to_string(), "C# object not synced to Java");
    let both_missing = state.call_java_method_fn(ObjectId(0), JavaFnId(9)).unwrap_err();
    assert_eq!(both_missing.to_string(), "C# object not synced to Java");
}

#[test]
fn a_stale_receiver_is_not_found() {
    let mut state: Box<State> = LibState::create();
    let method = state.java_methods.resolve("Calc", "total", Some("Calc#total")).unwrap();
    let receiver = state.java_objs.register(Rc::new("short lived".to_string())).unwrap();
    assert!(state.call_java_method_fn(receiver, method).is_ok());
    state.java_objs.unregister(receiver);
    let stale = state.call_java_method_fn(receiver, method).unwrap_err();
    assert_eq!(stale.to_string(), "C# object not synced to Java");
}

#[test]
fn deciding_a_call_leaves_no_trace() {
    let mut state: Box<State> = LibState::create();
    let id = state.java_static_fns.resolve("Calc", "add", Some("Calc.add")).unwrap();
    for _ in 0..3 {
        assert_eq!(state.call_static_java_fn(id).unwrap(), &"Calc.add");
        assert!(state.call_static_java_fn(JavaFnId(5)).is_err());
    }
    assert_eq!(state.java_static_fns.len(), 1);
    assert_eq!(state.java_objs.len(), 0);
}

#[test]
fn dropping_the_state_releases_what_is_registered() {
    let object = Rc::new("shared".to_string());
    for _ in 0..20 {
        let mut state: Box<State> = LibState::create();
        state.java_ref = Some(object.clone());
        state.java_objs.register(object.clone()).unwrap();
        let paired = state.java_objs.register(object.clone()).unwrap();
        state.java_objs.unregister(paired);
        assert_eq!(Rc::strong_count(&object), 3);
        drop(state);
        assert_eq!(Rc::strong_count(&object), 1);
    }
}
