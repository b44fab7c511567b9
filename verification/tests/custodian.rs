use cargo_hot::custodian::{
    call_entry_point, call_init, call_lib_symbol, call_lib_symbol_opt, Custodian, EntryPoint,
    LookupError,
};

type Entry = fn(Vec<u32>) -> Option<Vec<u32>>;

fn main_entry(tag: u32) -> impl FnOnce(Vec<u32>) -> Option<Vec<u32>> {
    move |mut state: Vec<u32>| {
        state.push(tag);
        Some(state)
    }
}

#[test]
fn take_leaves_the_custodian_empty() {
    let mut c: Custodian<u32> = Custodian::new();
    assert!(!c.holds());
    c.put(7);
    assert!(c.holds());
    assert_eq!(c.take(), Some(7));
    assert!(!c.holds());
    assert_eq!(c.take(), None);
}

#[test]
fn put_after_take_restores_the_state() {
    let mut c: Custodian<String> = Custodian::new();
    c.put(String::from("a"));
    let s = c.take().unwrap();
    c.put(s + "b");
    assert_eq!(c.take(), Some(String::from("ab")));
}

#[test]
fn required_entry_point_replaces_the_state() {
    let mut c: Custodian<Vec<u32>> = Custodian::new();
    c.put(vec![1]);
    assert_eq!(call_lib_symbol(&mut c, Some(main_entry(2))), Ok(()));
    assert_eq!(c.take(), Some(vec![1, 2]));
}

#[test]
fn missing_required_entry_point_is_an_error() {
    let mut c: Custodian<Vec<u32>> = Custodian::new();
    c.put(vec![1]);
    assert_eq!(call_lib_symbol(&mut c, None::<Entry>), Err(LookupError::SymbolMissing));
    assert_eq!(c.take(), Some(vec![1]));
}

#[test]
fn missing_optional_entry_point_keeps_the_state() {
    let mut c: Custodian<Vec<u32>> = Custodian::new();
    c.put(vec![4, 5]);
    call_lib_symbol_opt(&mut c, None::<Entry>);
    assert_eq!(c.take(), Some(vec![4, 5]));
}

#[test]
fn missing_optional_entry_point_does_not_touch_an_empty_custodian() {
    let mut c: Custodian<Vec<u32>> = Custodian::new();
    call_lib_symbol_opt(&mut c, None::<Entry>);
    assert!(!c.holds());
}

#[test]
fn drop_entry_point_consumes_the_state() {
    let mut c: Custodian<Vec<u32>> = Custodian::new();
    c.put(vec![9]);
    let mut seen: Vec<u32> = Vec::new();
    call_lib_symbol_opt(
        &mut c,
        Some(|state: Vec<u32>| {
            seen = state;
            None
        }),
    );
    assert_eq!(seen, vec![9]);
    assert!(!c.holds());
}

#[test]
fn init_makes_the_first_state() {
    let mut c: Custodian<Vec<u32>> = Custodian::new();
    assert_eq!(call_init(&mut c, Some(|| vec![5, 6])), Ok(()));
    assert_eq!(c.take(), Some(vec![5, 6]));
}

#[test]
fn missing_init_is_an_error() {
    let mut c: Custodian<Vec<u32>> = Custodian::new();
    assert_eq!(call_init(&mut c, None::<fn() -> Vec<u32>>), Err(LookupError::SymbolMissing));
    assert!(!c.holds());
}

#[test]
fn state_is_threaded_through_reload_cycles() {
    let cycles: u32 = 25;
    let mut c: Custodian<Vec<u32>> = Custodian::new();
    assert_eq!(call_init(&mut c, Some(|| vec![0])), Ok(()));
    let mut expected = vec![0];
    for n in 1..=cycles {
        assert_eq!(call_lib_symbol(&mut c, Some(main_entry(2 * n))), Ok(()));
        expected.push(2 * n);
        if n % 3 == 0 {
            call_lib_symbol_opt(&mut c, None::<Entry>);
        } else {
            call_lib_symbol_opt(&mut c, Some(main_entry(2 * n + 1)));
            expected.push(2 * n + 1);
        }
        assert!(c.holds());
    }
    let mut dropped: Option<Vec<u32>> = None;
    call_lib_symbol_opt(
        &mut c,
        Some(|state: Vec<u32>| {
            dropped = Some(state);
            None
        }),
    );
    assert_eq!(dropped, Some(expected));
    assert!(!c.holds());
    assert_eq!(c.take(), None);
}

#[test]
fn entry_points_are_exported_under_fixed_names() {
    assert_eq!(EntryPoint::Init.symbol(), "hot_init");
    assert_eq!(EntryPoint::Main.symbol(), "hot_main");
    assert_eq!(EntryPoint::PostMain.symbol(), "hot_post_main");
    assert_eq!(EntryPoint::Drop.symbol(), "hot_drop");
}

#[test]
fn init_and_main_are_required() {
    assert!(EntryPoint::Init.required());
    assert!(EntryPoint::Main.required());
    assert!(!EntryPoint::PostMain.required());
    assert!(!EntryPoint::Drop.required());
}

#[test]
fn missing_entry_point_is_an_error_only_where_required() {
    let mut c: Custodian<Vec<u32>> = Custodian::new();
    c.put(vec![1]);
    let missing = Err(LookupError::SymbolMissing);
    assert_eq!(call_entry_point(EntryPoint::Main, &mut c, None::<Entry>), missing);
    assert_eq!(call_entry_point(EntryPoint::Init, &mut c, None::<Entry>), missing);
    assert_eq!(call_entry_point(EntryPoint::PostMain, &mut c, None::<Entry>), Ok(()));
    assert_eq!(call_entry_point(EntryPoint::Drop, &mut c, None::<Entry>), Ok(()));
    assert_eq!(c.take(), Some(vec![1]));
}

#[test]
fn present_entry_point_runs_in_either_mode() {
    let mut c: Custodian<Vec<u32>> = Custodian::new();
    c.put(vec![1]);
    assert_eq!(call_entry_point(EntryPoint::Main, &mut c, Some(main_entry(2))), Ok(()));
    assert_eq!(call_entry_point(EntryPoint::PostMain, &mut c, Some(main_entry(3))), Ok(()));
    assert_eq!(c.take(), Some(vec![1, 2, 3]));
}
