use lock_free_static::OnceMut;

#[test]
fn once_mut_get_mut() {
    let mut cell = OnceMut::<i32>::new();
    assert!(cell.get_mut().is_none());

    cell.set(123).unwrap();

    let mut value_mut = cell.get_mut().unwrap();
    assert_eq!(value_mut, 123);
    assert!(cell.get_mut().is_none());
    value_mut = 321;
    assert_eq!(value_mut, 321);
}

#[test]
fn once_mut_lock() {
    let mut cell = OnceMut::<i32>::new();
    assert!(cell.lock().is_none());

    cell.set(123).unwrap();

    let mut guard = cell.lock().unwrap();
    assert_eq!(*guard.get(), 123);
    assert!(cell.lock().is_none());
    *guard.get_mut() = 321;
    assert_eq!(*guard.get(), 321);
    cell.unlock(guard);

    assert_eq!(*cell.lock().unwrap().get(), 321);
}

#[test]
fn once_mut_set_with() {
    let mut cell = OnceMut::<i32>::new();

    assert!(cell.set_with(|| 11).is_ok());
    let guard = cell.lock().unwrap();
    assert_eq!(*guard.get(), 11);
    cell.unlock(guard);

    assert!(cell.set_with(|| 22).is_err());
    let guard = cell.lock().unwrap();
    assert_eq!(*guard.get(), 11);
    cell.unlock(guard);
}

#[test]
fn once_mut_take() {
    let mut cell = OnceMut::<i32>::new();
    assert!(cell.take().is_none());

    cell.set(9).unwrap();
    assert_eq!(cell.take(), Some(9));
    assert!(cell.take().is_none());

    cell.set(10).unwrap();
    assert_eq!(cell.get_mut(), Some(10));
    assert!(cell.take().is_none());
    assert!(cell.into_inner().is_none());
}
