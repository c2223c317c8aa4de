use py_wraps::dispatch::{Key, MapEntry};
use py_wraps::host::{Failure, Handler, TypeDesc, Value, BASE_FAILURE};
use py_wraps::result;
use py_wraps::result::{Action, ResultError};

fn ty(token: u64, name: &str, ancestors: Vec<u64>) -> TypeDesc {
    TypeDesc { token, name: name.to_string(), ancestors }
}

fn base_exception() -> TypeDesc {
    ty(BASE_FAILURE, "<class 'BaseException'>", vec![])
}

fn exception() -> TypeDesc {
    ty(10, "<class 'Exception'>", vec![BASE_FAILURE])
}

fn value_error() -> TypeDesc {
    ty(20, "<class 'ValueError'>", vec![10, BASE_FAILURE])
}

fn unicode_error() -> TypeDesc {
    ty(30, "<class 'UnicodeError'>", vec![20, 10, BASE_FAILURE])
}

fn key_error() -> TypeDesc {
    ty(40, "<class 'KeyError'>", vec![10, BASE_FAILURE])
}

fn int_type() -> TypeDesc {
    ty(50, "<class 'int'>", vec![60])
}

fn value(id: u64, text: &str) -> Value {
    Value { id, text: text.to_string() }
}

fn failure(id: u64, t: TypeDesc, text: &str) -> Failure {
    Failure { id, ty: t, text: text.to_string() }
}

fn handler(id: u64) -> Handler {
    Handler { id, callable: true }
}

fn typed(t: TypeDesc, h: Handler) -> MapEntry {
    MapEntry { key: Key::Type(t), handler: h }
}

fn failed(f: Failure) -> result::Result {
    result::Result::new(None, Some(f)).unwrap()
}

#[test]
fn construct_with_both_fails() {
    let r = result::Result::new(Some(value(1, "1")), Some(failure(2, value_error(), "bad")));
    assert!(matches!(r, Err(ResultError::BothValues)));
}

#[test]
fn construct_with_success_only() {
    let r = result::Result::new(Some(value(1, "5")), None).unwrap();
    assert!(r.is_ok());
    assert!(!r.is_err());
    assert_eq!(r.ok().unwrap().id, 1);
    assert!(r.err().is_none());
}

#[test]
fn construct_with_failure_only() {
    let r = failed(failure(2, value_error(), "bad"));
    assert!(!r.is_ok());
    assert!(r.is_err());
    assert!(r.ok().is_none());
    assert_eq!(r.err().unwrap().id, 2);
}

#[test]
fn construct_empty_unwraps_to_nothing() {
    let r = result::Result::new(None, None).unwrap();
    assert!(r.ok().is_none());
    assert!(r.err().is_none());
    assert!(r.is_ok());
    assert!(matches!(r.unwrap(), Ok(None)));
}

#[test]
fn wrap_returned_value_is_success() {
    let r = result::Result::wrap(Ok(value(7, "'done'")));
    assert!(r.is_ok());
    let v = r.ok().unwrap();
    assert_eq!(v.id, 7);
    assert_eq!(v.text, "'done'");
}

#[test]
fn wrap_raised_failure_keeps_identity() {
    let r = result::Result::wrap(Err(failure(99, key_error(), "'k'")));
    assert!(r.is_err());
    let f = r.err().unwrap();
    assert_eq!(f.id, 99);
    assert_eq!(f.ty.token, 40);
    assert_eq!(f.text, "'k'");
}

#[test]
fn unwrap_raises_held_failure() {
    let r = failed(failure(77, value_error(), "boom"));
    match r.unwrap() {
        Err(ResultError::Raised(f)) => {
            assert_eq!(f.id, 77);
            assert_eq!(f.ty.token, 20);
            assert_eq!(f.text, "boom");
        }
        _ => panic!("expected the held failure"),
    }
}

#[test]
fn unwrap_returns_success() {
    let r = result::Result::new(Some(value(3, "3")), None).unwrap();
    match r.unwrap() {
        Ok(Some(v)) => assert_eq!(v.id, 3),
        _ => panic!("expected the success value"),
    }
}

#[test]
fn unwrap_or_substitutes_default_on_failure() {
    let r = failed(failure(1, value_error(), "x"));
    assert_eq!(r.unwrap_or(value(5, "5")).unwrap().id, 5);
    let s = result::Result::new(Some(value(4, "4")), None).unwrap();
    assert_eq!(s.unwrap_or(value(5, "5")).unwrap().id, 4);
}

#[test]
fn unwrap_or_else_calls_fallback_only_on_failure() {
    let r = failed(failure(1, value_error(), "x"));
    assert!(matches!(r.unwrap_or_else(), Action::Fallback));
    let s = result::Result::new(Some(value(4, "4")), None).unwrap();
    match s.unwrap_or_else() {
        Action::Return(Some(v)) => assert_eq!(v.id, 4),
        _ => panic!("expected the success value"),
    }
}

#[test]
fn unwrap_err_returns_failure() {
    let r = failed(failure(8, value_error(), "x"));
    assert_eq!(r.unwrap_err().unwrap().id, 8);
}

#[test]
fn unwrap_err_on_success_names_value() {
    let r = result::Result::new(Some(value(4, "42")), None).unwrap();
    match r.unwrap_err() {
        Err(ResultError::NotFailure { message }) => {
            assert_eq!(message, "result in status success with value 42")
        }
        _ => panic!("expected a diagnostic"),
    }
    let e = result::Result::new(None, None).unwrap();
    match e.unwrap_err() {
        Err(ResultError::NotFailure { message }) => {
            assert_eq!(message, "result in status success with value None")
        }
        _ => panic!("expected a diagnostic"),
    }
}

#[test]
fn add_handler_rejects_non_failure_type() {
    let mut r = failed(failure(1, value_error(), "x"));
    match r.add_err_handler(int_type(), handler(1)) {
        Err(ResultError::NotFailureType { message }) => {
            assert_eq!(message, "err must be subclass `Exception` not `<class 'int'>`")
        }
        _ => panic!("expected a type error"),
    }
    assert!(!r.is_err_handled());
    assert!(matches!(r.unwrap_with_handlers(), Action::Fail(ResultError::Unhandled { .. })));
}

#[test]
fn add_handler_accepts_base_failure_type() {
    let mut r = failed(failure(1, value_error(), "x"));
    assert!(r.add_err_handler(base_exception(), handler(3)).is_ok());
    assert!(r.is_err_handled());
    assert!(matches!(r.unwrap_with_handlers(), Action::Invoke(h) if h.id == 3));
}

#[test]
fn derived_handler_registered_first_is_selected() {
    let mut r = failed(failure(1, value_error(), "x"));
    r.add_err_handler(value_error(), handler(2)).unwrap();
    r.add_err_handler(exception(), handler(1)).unwrap();
    assert!(matches!(r.unwrap_with_handlers(), Action::Invoke(h) if h.id == 2));
}

#[test]
fn base_handler_registered_first_shadows_derived() {
    let mut r = failed(failure(1, value_error(), "x"));
    r.add_err_handler(exception(), handler(1)).unwrap();
    r.add_err_handler(value_error(), handler(2)).unwrap();
    assert!(matches!(r.unwrap_with_handlers(), Action::Invoke(h) if h.id == 1));
}

#[test]
fn reregistering_a_type_replaces_in_place() {
    let mut r = failed(failure(1, value_error(), "x"));
    r.add_err_handler(value_error(), handler(2)).unwrap();
    r.add_err_handler(exception(), handler(1)).unwrap();
    r.add_err_handler(value_error(), handler(5)).unwrap();
    assert!(matches!(r.unwrap_with_handlers(), Action::Invoke(h) if h.id == 5));
}

#[test]
fn match_on_success_ignores_malformed_table() {
    let r = result::Result::new(Some(value(6, "6")), None).unwrap();
    let table = vec![
        MapEntry { key: Key::Hash(6), handler: Handler { id: 1, callable: false } },
        typed(int_type(), Handler { id: 2, callable: false }),
    ];
    match r.match_handlers(&table) {
        Action::Return(Some(v)) => assert_eq!(v.id, 6),
        _ => panic!("expected the success value"),
    }
}

#[test]
fn match_selects_ancestor_handler() {
    let r = failed(failure(1, unicode_error(), "x"));
    let table = vec![typed(key_error(), handler(1)), typed(value_error(), handler(2))];
    assert!(matches!(r.match_handlers(&table), Action::Invoke(h) if h.id == 2));
}

#[test]
fn match_exact_instance_key_comes_first() {
    let r = failed(failure(123, value_error(), "x"));
    let table = vec![
        typed(value_error(), handler(1)),
        MapEntry { key: Key::Hash(123), handler: handler(2) },
    ];
    assert!(matches!(r.match_handlers(&table), Action::Invoke(h) if h.id == 2));
    assert_eq!(result::Result::get_err_handler(&failure(123, key_error(), "y"), &table), Some(handler(2)));
    assert_eq!(result::Result::get_err_handler(&failure(5, key_error(), "y"), &table), None);
}

#[test]
fn match_unmatched_names_type_and_message() {
    let r = failed(failure(1, key_error(), "'missing'"));
    let table = vec![typed(value_error(), handler(1))];
    match r.match_handlers(&table) {
        Action::Fail(ResultError::Unhandled { message }) => assert_eq!(
            message,
            "mapped must contain a handler for exception type <class 'KeyError'>. Original err message: 'missing'"
        ),
        _ => panic!("expected a diagnostic"),
    }
}

#[test]
fn unhandled_failure_is_reported_and_not_handled() {
    let mut r = failed(failure(1, key_error(), "'missing'"));
    r.add_err_handler(value_error(), handler(1)).unwrap();
    assert!(!r.is_err_handled());
    match r.unwrap_with_handlers() {
        Action::Fail(ResultError::Unhandled { message }) => {
            assert!(message.contains("<class 'KeyError'>"));
            assert_eq!(
                message,
                "unset handler for `<class 'KeyError'>` exception type. Original err message: 'missing'"
            );
        }
        _ => panic!("expected a diagnostic"),
    }
}

#[test]
fn success_is_handled() {
    let r = result::Result::new(Some(value(1, "1")), None).unwrap();
    assert!(r.is_err_handled());
    assert!(matches!(r.unwrap_with_handlers(), Action::Return(Some(v)) if v.id == 1));
}

#[test]
fn unwrap_with_handlers_or_default_when_unmatched() {
    let r = failed(failure(1, key_error(), "x"));
    assert!(matches!(r.unwrap_with_handlers_or(value(9, "9")), Action::Return(Some(v)) if v.id == 9));
}

#[test]
fn unwrap_with_handlers_or_default_when_handler_raises() {
    let mut r = failed(failure(1, key_error(), "x"));
    r.add_err_handler(key_error(), handler(4)).unwrap();
    assert!(matches!(r.unwrap_with_handlers_or(value(9, "9")), Action::Invoke(h) if h.id == 4));
    let settled = result::Result::settle_or(Err(failure(2, value_error(), "in handler")), value(9, "9"));
    assert_eq!(settled.id, 9);
    let returned = result::Result::settle_or(Ok(value(11, "11")), value(9, "9"));
    assert_eq!(returned.id, 11);
}

#[test]
fn unwrap_with_handlers_or_else_falls_back() {
    let r = failed(failure(1, key_error(), "x"));
    assert!(matches!(r.unwrap_with_handlers_or_else(), Action::Fallback));
    assert!(matches!(
        result::Result::settle_or_else(Err(failure(2, value_error(), "e"))),
        Action::Fallback
    ));
    assert!(matches!(
        result::Result::settle_or_else(Ok(value(3, "3"))),
        Action::Return(Some(v)) if v.id == 3
    ));
}

#[test]
fn bulk_registration_skips_malformed_entries() {
    let mut r = failed(failure(1, key_error(), "x"));
    let table = vec![
        MapEntry { key: Key::Hash(1), handler: handler(1) },
        typed(int_type(), handler(2)),
        typed(key_error(), Handler { id: 3, callable: false }),
    ];
    r.add_err_handlers(&table);
    assert!(!r.is_err_handled());
    let good = vec![typed(exception(), handler(4))];
    r.add_err_handlers(&good);
    assert!(matches!(r.unwrap_with_handlers(), Action::Invoke(h) if h.id == 4));
}

#[test]
fn err_type_and_check_err_type() {
    let r = failed(failure(1, unicode_error(), "x"));
    assert_eq!(r.err_type().unwrap().token, 30);
    assert!(r.check_err_type(&value_error()));
    assert!(r.check_err_type(&unicode_error()));
    assert!(!r.check_err_type(&key_error()));
    let s = result::Result::new(Some(value(1, "1")), None).unwrap();
    assert!(s.err_type().is_none());
    assert!(!s.check_err_type(&exception()));
}

#[test]
fn render_success_42() {
    let r = result::Result::new(Some(value(1, "42")), None).unwrap();
    assert_eq!(r.repr(), "Result(ok=42, err=None)");
}

#[test]
fn render_failure() {
    let r = failed(failure(1, value_error(), "bad input"));
    assert_eq!(r.repr(), "Result(ok=None, err=bad input)");
    let e = result::Result::new(None, None).unwrap();
    assert_eq!(e.repr(), "Result(ok=None, err=None)");
}

#[test]
fn type_subtype_checks() {
    assert!(unicode_error().is_subtype_of(10));
    assert!(value_error().is_subtype_of(20));
    assert!(!key_error().is_subtype_of(20));
    assert!(value_error().is_failure_type());
    assert!(!int_type().is_failure_type());
}
