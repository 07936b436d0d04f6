use lock_free_static::Mutex;

#[test]
fn try_lock() {
    let mut mutex = Mutex::<i32>::new(123);

    let mut guard = mutex.try_lock().unwrap();
    assert_eq!(*guard.get(), 123);
    assert!(mutex.try_lock().is_none());
    *guard.get_mut() = 321;
    assert_eq!(*guard.get(), 321);
    mutex.unlock(guard);

    assert_eq!(*mutex.try_lock().unwrap().get(), 321);
}

#[test]
fn leak() {
    let mut mutex = Mutex::<i32>::new(123);
    let mut value_mut = mutex.try_lock().unwrap().leak();
    assert_eq!(value_mut, 123);
    assert!(mutex.try_lock().is_none());
    value_mut = 321;
    assert_eq!(value_mut, 321);
}

#[test]
fn leak_permanence() {
    let mut mutex = Mutex::<i32>::new(7);
    let guard = mutex.try_lock().unwrap();
    assert_eq!(guard.leak(), 7);
    assert!(mutex.is_locked());
    for _ in 0..3 {
        assert!(mutex.try_lock().is_none());
    }
    assert!(mutex.is_locked());
}

#[test]
fn mutex_get_mut() {
    let mut mutex = Mutex::<i32>::new(1);
    assert!(!mutex.is_locked());
    *mutex.get_mut() = 2;
    assert_eq!(*mutex.get_mut(), 2);
    assert_eq!(mutex.into_inner(), 2);
}
