use lifterr::option::OptionExt;
use std::cell::Cell;

fn some() -> Option<i32> {
    Some(1)
}

fn none() -> Option<i32> {
    None
}

#[test]
fn option_then_runs_continuation_on_some() {
    assert_eq!(some().then(|| Some("42")), Some("42"));
    assert_eq!(none().then(|| Some("42")), None);
}

#[test]
fn option_then_hands_on_what_the_continuation_yields() {
    assert_eq!(some().then(|| None::<&str>), None);
    assert_eq!(some().then(|| Some(7u8)).then(|| Some('x')), Some('x'));
    assert_eq!(some().then(|| None::<u8>).then(|| Some('x')), None);
}

#[test]
fn option_then_skips_continuation_on_none() {
    let calls = Cell::new(0u32);
    let out = none().then(|| {
        calls.set(calls.get() + 1);
        Some("42")
    });
    assert_eq!(out, None);
    assert_eq!(calls.get(), 0);
    let out = some().then(|| {
        calls.set(calls.get() + 1);
        Some("42")
    });
    assert_eq!(out, Some("42"));
    assert_eq!(calls.get(), 1);
}

#[test]
fn option_remap_wraps_value_on_some() {
    assert_eq!(some().remap(|| "42"), Some("42"));
    assert_eq!(none().remap(|| "42"), None);
}

#[test]
fn option_remap_skips_continuation_on_none() {
    let calls = Cell::new(0u32);
    let out = none().remap(|| calls.set(calls.get() + 1));
    assert_eq!(out, None);
    assert_eq!(calls.get(), 0);
    let out = some().remap(|| calls.set(calls.get() + 1));
    assert_eq!(out, Some(()));
    assert_eq!(calls.get(), 1);
}

#[test]
fn option_remap_agrees_with_then() {
    assert_eq!(some().remap(|| 9u8), some().then(|| Some(9u8)));
    assert_eq!(none().remap(|| 9u8), none().then(|| Some(9u8)));
}

#[test]
fn option_void_discards_payload() {
    assert_eq!(some().void(), Some(()));
    assert_eq!(none().void(), None);
    assert_eq!(Some("payload").void(), Some(()));
}

#[test]
fn option_void_twice_is_void_once() {
    assert_eq!(some().void().void(), some().void());
    assert_eq!(none().void().void(), none().void());
}

#[test]
fn option_inspect_passes_value_through() {
    assert_eq!(OptionExt::inspect(Some(10), |a| println!("a = {a}")), Some(10));
    assert_eq!(OptionExt::inspect(None::<i32>, |a| println!("a = {a}")), None);
}

#[test]
fn option_inspect_shows_payload_once() {
    let seen = Cell::new(0i32);
    let calls = Cell::new(0u32);
    let out = OptionExt::inspect(Some(10), |a: &i32| {
        seen.set(*a);
        calls.set(calls.get() + 1);
    });
    assert_eq!(out, Some(10));
    assert_eq!(seen.get(), 10);
    assert_eq!(calls.get(), 1);
    let out = OptionExt::inspect(None::<i32>, |_a: &i32| calls.set(calls.get() + 1));
    assert_eq!(out, None);
    assert_eq!(calls.get(), 1);
}

#[test]
fn option_inspect_keeps_payload_that_is_not_copy() {
    let out = OptionExt::inspect(Some(String::from("kept")), |s: &String| assert_eq!(s.len(), 4));
    assert_eq!(out, Some(String::from("kept")));
}

#[test]
fn option_recover_fills_absent_value() {
    assert_eq!(Some(10).recover(|| 42), Some(10));
    assert_eq!(none().recover(|| 42), Some(42));
}

#[test]
fn option_recover_with_may_fall_back() {
    fn not_found() -> Option<i32> {
        None
    }
    fn fallback() -> Option<i32> {
        Some(42)
    }
    assert_eq!(Some(10).recover_with(fallback), Some(10));
    assert_eq!(not_found().recover_with(fallback), Some(42));
}

#[test]
fn option_recover_with_may_stay_absent() {
    assert_eq!(none().recover_with(|| None), None);
    assert_eq!(Some(10).recover_with(|| None), Some(10));
}

#[test]
fn option_recover_skips_fallback_on_some() {
    let calls = Cell::new(0u32);
    let out = Some(10).recover_with(|| {
        calls.set(calls.get() + 1);
        Some(42)
    });
    assert_eq!(out, Some(10));
    let out = Some(10).recover(|| {
        calls.set(calls.get() + 1);
        42
    });
    assert_eq!(out, Some(10));
    assert_eq!(calls.get(), 0);
    let out = none().recover(|| {
        calls.set(calls.get() + 1);
        42
    });
    assert_eq!(out, Some(42));
    assert_eq!(calls.get(), 1);
}

#[test]
fn option_recover_agrees_with_recover_with() {
    assert_eq!(some().recover(|| 5), some().recover_with(|| Some(5)));
    assert_eq!(none().recover(|| 5), none().recover_with(|| Some(5)));
}
