use lock_free_static::LockFreeStatic;
use lock_free_static::OnceCell;
use lock_free_static::OnceMut;

#[test]
fn init_const_() {
    let mut var = LockFreeStatic::new(OnceCell::<i32>::new(), || 123);
    assert!(var.get().is_none());
    assert!(var.init());

    let value = var.get().unwrap();
    assert_eq!(*value, 123);
    assert_eq!(*var.get().unwrap(), 123);
}

#[test]
fn init_mut_() {
    let mut var = LockFreeStatic::new(OnceMut::<i32>::new(), || 123);
    assert!(var.get_mut().is_none());
    assert!(var.init());

    let mut value_mut = var.get_mut().unwrap();
    assert_eq!(value_mut, 123);
    assert!(var.get_mut().is_none());
    value_mut = 321;
    assert_eq!(value_mut, 321);
}

#[test]
fn init_multiple() {
    let mut one = LockFreeStatic::new(OnceCell::<i32>::new(), || 1);
    let mut two = LockFreeStatic::new(OnceMut::<i32>::new(), || 2);

    assert!(one.init());
    assert!(two.init());
    assert_eq!(*one.get().unwrap(), 1);
    assert_eq!(*one.get().unwrap(), 1);
    assert_eq!(two.get_mut().unwrap(), 2);
    assert!(two.get_mut().is_none());
}

#[test]
fn init_visibility() {
    let mut one = LockFreeStatic::new(OnceCell::<i32>::new(), || 1);
    let mut two = LockFreeStatic::new(OnceMut::<i32>::new(), || 2);

    assert!(one.init());
    assert!(two.init());
    assert_eq!(*one.get().unwrap(), 1);
    assert_eq!(two.get_mut().unwrap(), 2);
}
