use lock_free_static::OnceMut;

#[test]
fn mut__get_mut() {
    let mut cell = OnceMut::<i32>::new();
    assert!(cell.get_mut().is_none());

    cell.set(123).unwrap();

    let mut value_mut = cell.get_mut().unwrap();
    assert_eq!(value_mut, 123);
    assert!(cell.get_mut().is_none());
    value_mut = 321;
    assert_eq!(value_mut, 321);
}

#[test]
fn mut__lock() {
    let mut cell = OnceMut::<i32>::new();
    assert!(cell.lock().is_none());

    cell.set(123).unwrap();

    let mut guard = cell.lock().unwrap();
    assert_eq!(*guard.get(), 123);
    assert!(cell.lock().is_none());
    *guard.get_mut() = 321;
    assert_eq!(*guard.get(), 321);
    cell.unlock(guard);

    assert_eq!(*cell.lock().unwrap().get(), 321);
}
