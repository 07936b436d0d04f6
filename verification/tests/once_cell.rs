use lock_free_static::OnceCell;

#[test]
fn once_cell_get() {
    let mut cell = OnceCell::<i32>::new();
    assert!(cell.get().is_none());

    cell.set(123).unwrap();
    assert_eq!(cell.set(321), Err(321));
    assert_eq!(*cell.get().unwrap(), 123);

    {
        let value_mut = cell.get_mut().unwrap();
        assert_eq!(*value_mut, 123);
        *value_mut = 321;
        assert_eq!(*value_mut, 321);
    }
    assert_eq!(*cell.get().unwrap(), 321);
}

#[test]
fn once_cell_take() {
    let mut cell = OnceCell::<i32>::new();
    assert!(cell.get().is_none());

    cell.set(123).unwrap();
    assert_eq!(cell.set(321), Err(321));
    assert_eq!(*cell.get().unwrap(), 123);

    assert_eq!(cell.take().unwrap(), 123);
    assert!(cell.get().is_none());
    assert!(cell.take().is_none());

    cell.set(321).unwrap();
    assert_eq!(*cell.get().unwrap(), 321);
    assert_eq!(cell.into_inner().unwrap(), 321);
}

#[test]
fn set_with() {
    let mut cell = OnceCell::<i32>::new();

    assert!(cell.set_with(|| 123).is_ok());
    assert_eq!(*cell.get().unwrap(), 123);
    assert!(cell.set_with(|| 321).is_err());
    assert_eq!(*cell.get().unwrap(), 123);
}

#[test]
fn once_cell_static_() {
    let mut cell = OnceCell::<i32>::new();
    assert!(cell.get().is_none());

    cell.set(123).unwrap();
    assert_eq!(cell.set(321), Err(321));
    assert_eq!(*cell.get().unwrap(), 123);
}
