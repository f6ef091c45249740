use std::cell::Cell;

use tap::Tappable;

#[test]
fn it_taps_on_some() {
    let mut x = 1;
    let some = Some(2);
    let res = some.tap(|val| x = val + x);
    assert!(res.unwrap() == 2);
    assert!(x == 3);
}

#[test]
fn it_doesnt_tap_on_none() {
    let mut x = 1;
    let none = None;
    let res = none.tap(|val| x = val + x);
    assert!(res == None);
    assert!(x == 1);
}

#[test]
fn it_taps_on_ok() {
    let mut x = 1;
    let ok: Result<i32, ()> = Ok(2);
    let res = ok.tap(|val| x = val + x);
    assert!(res.unwrap() == 2);
    assert!(x == 3);
}

#[test]
fn it_doesnt_tap_on_error() {
    let mut x = 1;
    let err: Result<i32, i32> = Err(5);
    let res = err.tap(|val| x = val + x);
    assert!(res == Err(5));
    assert!(x == 1);
}

#[test]
fn some_is_inspected_once_with_its_value() {
    let calls = Cell::new(0u32);
    let seen = Cell::new(0u64);
    let res = Some(41u64).tap(|v| {
        calls.set(calls.get() + 1);
        seen.set(*v);
    });
    assert_eq!(res, Some(41));
    assert_eq!(calls.get(), 1);
    assert_eq!(seen.get(), 41);
}

#[test]
fn inspector_result_is_discarded() {
    let res = Some(String::from("kept")).tap(|s| s.len() * 2);
    assert_eq!(res, Some(String::from("kept")));
    let ok: Result<Vec<u8>, String> = Ok(vec![1, 2, 3]);
    let res = ok.tap(|v| v.iter().map(|b| *b as u32).sum::<u32>());
    assert_eq!(res, Ok(vec![1, 2, 3]));
}

#[test]
fn none_never_calls_the_inspector() {
    let none: Option<String> = None;
    let res = none.tap(|_| panic!("inspector called on an empty value"));
    assert_eq!(res, None);
}

#[test]
fn ok_is_inspected_once_with_its_value() {
    let calls = Cell::new(0u32);
    let seen = Cell::new(0i64);
    let ok: Result<i64, String> = Ok(-7);
    let res = ok.tap(|v| {
        calls.set(calls.get() + 1);
        seen.set(*v);
    });
    assert_eq!(res, Ok(-7));
    assert_eq!(calls.get(), 1);
    assert_eq!(seen.get(), -7);
}

#[test]
fn error_payload_passes_through_untouched() {
    let err: Result<u8, String> = Err(String::from("broken pipe"));
    let res = err.tap(|_| panic!("inspector called on an error"));
    assert_eq!(res, Err(String::from("broken pipe")));
}
