use rcore_os::sync::lazy::{Lazy, OnceCell};

#[test]
fn once_cell_is_written_once() {
    let mut c: OnceCell<i32> = OnceCell::new();
    assert_eq!(c.get(), None);
    assert_eq!(c.set(3), Ok(()));
    assert_eq!(c.get(), Some(&3));
    assert_eq!(c.set(4), Err(4));
    assert_eq!(c.get(), Some(&3));
}

#[test]
fn once_cell_from_value() {
    let c = OnceCell::from(9u8);
    assert_eq!(c.get(), Some(&9));
    assert_eq!(c.clone(), OnceCell::from(9u8));
    assert!(c != OnceCell::new());
}

#[test]
fn get_or_init_runs_initialiser_only_when_empty() {
    let mut c: OnceCell<String> = OnceCell::new();
    assert_eq!(c.get_or_init(|| "first".to_string()), "first");
    assert_eq!(c.get_or_init(|| "second".to_string()), "first");
}

#[test]
fn get_or_try_init_keeps_cell_empty_on_error() {
    let mut c: OnceCell<i32> = OnceCell::new();
    assert_eq!(c.get_or_try_init(|| Err::<i32, &str>("no")), Err("no"));
    assert_eq!(c.get(), None);
    assert_eq!(c.get_or_try_init(|| Ok::<i32, &str>(5)), Ok(&5));
    assert_eq!(c.get_or_try_init(|| Err::<i32, &str>("late")), Ok(&5));
}

#[test]
fn lazy_computes_once() {
    let mut l = Lazy::new(|| 6 * 7);
    assert_eq!(*Lazy::force(&mut l), 42);
    assert_eq!(*Lazy::force(&mut l), 42);
    let mut calls = 0;
    {
        let mut counted = Lazy::new(|| {
            calls += 1;
            calls
        });
        assert_eq!(*Lazy::force(&mut counted), 1);
        assert_eq!(*Lazy::force(&mut counted), 1);
    }
    assert_eq!(calls, 1);
}
