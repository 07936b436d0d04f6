use vstd::prelude::*;

verus! {

/// A non-blocking mutual-exclusion wrapper around one value of type `T`.
///
/// `try_lock` never waits: it either hands out a [`MutexGuard`] that owns
/// the value, or refuses immediately because a guard is already out.  The
/// guard is given back with [`Mutex::unlock`], which stores its value again,
/// or consumed by [`MutexGuard::leak`], after which the mutex is locked
/// forever.
///
/// The abstract state of a mutex is an `Option<T>`: `Some(v)` while it is
/// unlocked and holds `v`, `None` while it is locked and its value is out
/// with a guard (or gone with a leaked one).
pub struct Mutex<T> {
    inner: Option<T>,
}

impl<T> View for Mutex<T> {
    type V = Option<T>;

    closed spec fn view(&self) -> Option<T> {
        self.inner
    }
}

/// A guard that owns the value taken out of a locked [`Mutex`].
///
/// Its abstract state is the value itself.
pub struct MutexGuard<T> {
    value: T,
}

impl<T> View for MutexGuard<T> {
    type V = T;

    closed spec fn view(&self) -> T {
        self.value
    }
}

/// State transition and result of [`Mutex::try_lock`]: on an unlocked mutex
/// the value moves out to the caller and the mutex locks; a locked mutex
/// refuses and stays locked.
pub open spec fn try_lock_outcome<T>(state: Option<T>) -> (Option<T>, Option<T>) {
    match state {
        Some(v) => (None, Some(v)),
        None => (None, None),
    }
}

impl<T> Mutex<T> {
    /// Creates an unlocked mutex holding `item`.
    pub fn new(item: T) -> (r: Self)
        ensures
            r@ == Some(item),
    {
        Mutex { inner: Some(item) }
    }

    /// Consumes an unlocked mutex and returns its value.
    pub fn into_inner(self) -> (r: T)
        requires
            self@ is Some,
        ensures
            r == self@.unwrap(),
    {
        let mut m = self;
        match m.inner.take() {
            Some(v) => v,
            None => vstd::pervasive::unreached(),
        }
    }

    /// Returns a mutable reference to the value of an unlocked mutex.
    pub fn get_mut(&mut self) -> (r: &mut T)
        requires
            old(self)@ is Some,
        ensures
            *r == old(self)@.unwrap(),
            final(self)@ == Some(*final(r)),
    {
        match self.inner.as_mut() {
            Some(r) => r,
            None => vstd::pervasive::unreached(),
        }
    }

    /// Reports whether the mutex is locked.
    pub fn is_locked(&self) -> (r: bool)
        ensures
            r == (self@ is None),
    {
        self.inner.is_none()
    }

    /// Attempts to acquire the lock, without waiting: on an unlocked mutex
    /// the value moves into the returned guard; a locked mutex refuses.
    pub fn try_lock(&mut self) -> (r: Option<MutexGuard<T>>)
        ensures
            final(self)@ == try_lock_outcome(old(self)@).0,
            r is Some <==> try_lock_outcome(old(self)@).1 is Some,
            r is Some ==> r.unwrap()@ == try_lock_outcome(old(self)@).1.unwrap(),
            old(self)@ is Some ==> r is Some && r.unwrap()@ == old(self)@.unwrap(),
            old(self)@ is None ==> r is None,
            final(self)@ is None,
    {
        match self.inner.take() {
            Some(v) => Some(MutexGuard { value: v }),
            None => None,
        }
    }

    /// Releases the lock: stores the guard's value back into the mutex the
    /// guard was taken from.
    pub fn unlock(&mut self, guard: MutexGuard<T>)
        requires
            old(self)@ is None,
        ensures
            final(self)@ == Some(guard@),
    {
        self.inner = Some(guard.value);
    }
}

impl<T> MutexGuard<T> {
    /// Returns a reference to the guarded value.
    pub fn get(&self) -> (r: &T)
        ensures
            *r == self@,
    {
        &self.value
    }

    /// Returns a mutable reference to the guarded value.
    pub fn get_mut(&mut self) -> (r: &mut T)
        ensures
            *r == old(self)@,
            final(self)@ == *final(r),
    {
        &mut self.value
    }

    /// Consumes the guard and keeps the value, deliberately forgoing
    /// release: the mutex the guard was taken from stays locked forever.
    pub fn leak(self) -> (r: T)
        ensures
            r == self@,
    {
        self.value
    }
}

/// The mutex state after `n` successive `try_lock` attempts.
pub open spec fn run_try_locks<T>(state: Option<T>, n: nat) -> Option<T>
    decreases n,
{
    if n == 0 {
        state
    } else {
        run_try_locks(try_lock_outcome(state).0, (n - 1) as nat)
    }
}

/// How many of `n` successive `try_lock` attempts succeed.
pub open spec fn try_lock_success_count<T>(state: Option<T>, n: nat) -> nat
    decreases n,
{
    if n == 0 {
        0
    } else {
        (if try_lock_outcome(state).1 is Some {
            1nat
        } else {
            0nat
        }) + try_lock_success_count(try_lock_outcome(state).0, (n - 1) as nat)
    }
}

/// Leak permanence: `leak` consumes the guard of a locked mutex without
/// releasing it, so the mutex stays locked; and on a locked mutex every
/// later `try_lock`, however many are made, is refused and leaves the mutex
/// locked.
pub proof fn lemma_leak_permanence<T>(n: nat)
    ensures
        run_try_locks(None::<T>, n) == None::<T>,
        try_lock_success_count(None::<T>, n) == 0,
    decreases n,
{
    if n > 0 {
        lemma_leak_permanence::<T>((n - 1) as nat);
    }
}

/// Mutual exclusion: of any number of successive `try_lock` attempts, at
/// most one succeeds — once a guard is out, the mutex refuses until that
/// guard is given back with `unlock`.
pub proof fn lemma_mutual_exclusion<T>(state: Option<T>, n: nat)
    ensures
        try_lock_success_count(state, n) <= 1,
{
    match state {
        None => lemma_leak_permanence::<T>(n),
        Some(_) => {
            if n > 0 {
                lemma_leak_permanence::<T>((n - 1) as nat);
            }
        },
    }
}

} // verus!
