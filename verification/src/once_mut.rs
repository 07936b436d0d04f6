use crate::mutex::Mutex;
use crate::mutex::MutexGuard;
use crate::once_cell::OnceCell;
use vstd::prelude::*;

verus! {

/// A [`OnceCell`] that additionally grants exclusive mutable access to its
/// value: at most one borrower at a time.
///
/// The value is stored at most once with `set`/`set_with`.  A borrower
/// takes it with `lock`, which hands out a [`LockGuard`] owning the value,
/// and gives it back with [`OnceMut::unlock`]; while the guard is out every
/// further `lock` is refused.  `get_mut` is the one-shot variant: it hands
/// the value over for good and the cell stays borrowed forever.
///
/// The abstract state is an `Option<Option<T>>`: `None` while the cell is
/// empty, `Some(Some(v))` when it holds `v` with no borrower, and
/// `Some(None)` while its value is out with a borrower.
pub struct OnceMut<T> {
    cell: OnceCell<Mutex<T>>,
}

/// A guard that owns the value borrowed from a [`OnceMut`].
pub type LockGuard<T> = MutexGuard<T>;

impl<T> View for OnceMut<T> {
    type V = Option<Option<T>>;

    closed spec fn view(&self) -> Option<Option<T>> {
        match self.cell@ {
            None => None,
            Some(m) => Some(m@),
        }
    }
}

/// State transition and result of [`OnceMut::lock`]: on an initialized,
/// unborrowed cell the value moves out to the borrower; an empty or already
/// borrowed cell refuses and is left unchanged.
pub open spec fn lock_outcome<T>(state: Option<Option<T>>) -> (Option<Option<T>>, Option<T>) {
    match state {
        Some(Some(v)) => (Some(None), Some(v)),
        _ => (state, None),
    }
}

impl<T> OnceMut<T> {
    /// Creates an empty cell.
    pub fn new() -> (r: Self)
        ensures
            r@ is None,
    {
        OnceMut { cell: OnceCell::new() }
    }

    /// Stores `value` if the cell is empty; on an initialized cell the call
    /// is refused and `value` is handed back unchanged.
    pub fn set(&mut self, value: T) -> (r: Result<(), T>)
        ensures
            old(self)@ is None ==> r is Ok && final(self)@ == Some(Some(value)),
            old(self)@ is Some ==> r == Err::<(), T>(value) && final(self)@ == old(self)@,
    {
        match self.cell.set(Mutex::new(value)) {
            Ok(()) => Ok(()),
            Err(m) => Err(m.into_inner()),
        }
    }

    /// Stores the value produced by `ctor` if the cell is empty; `ctor` is
    /// called only in that case.  On an initialized cell the factory is
    /// handed back unevaluated.
    pub fn set_with<F: FnOnce() -> T>(&mut self, ctor: F) -> (r: Result<(), F>)
        requires
            old(self)@ is None ==> call_requires(ctor, ()),
        ensures
            old(self)@ is Some ==> r == Err::<(), F>(ctor) && final(self)@ == old(self)@,
            old(self)@ is None ==> r is Ok && final(self)@ is Some && final(self)@.unwrap()
                is Some && call_ensures(ctor, (), final(self)@.unwrap().unwrap()),
    {
        if self.cell.get().is_some() {
            Err(ctor)
        } else {
            let v = ctor();
            match self.cell.set(Mutex::new(v)) {
                Ok(()) => Ok(()),
                Err(_) => vstd::pervasive::unreached(),
            }
        }
    }

    /// Moves the value out, leaving the cell empty.  A borrowed cell no
    /// longer holds its value, so there is nothing to take and the cell is
    /// left borrowed.
    pub fn take(&mut self) -> (r: Option<T>)
        ensures
            old(self)@ is None ==> r is None && final(self)@ is None,
            old(self)@ == Some(None::<T>) ==> r is None && final(self)@ == old(self)@,
            old(self)@ is Some && old(self)@.unwrap() is Some ==> r == old(self)@.unwrap()
                && final(self)@ is None,
    {
        let available = match self.cell.get() {
            None => false,
            Some(m) => !m.is_locked(),
        };
        if available {
            let m = match self.cell.take() {
                Some(m) => m,
                None => vstd::pervasive::unreached(),
            };
            Some(m.into_inner())
        } else {
            None
        }
    }

    /// Hands the value over for good: returns it if the cell is initialized
    /// and not borrowed, and leaves the cell borrowed forever — every later
    /// `get_mut` or `lock` is refused, and no guard exists that could
    /// release the borrow.
    pub fn get_mut(&mut self) -> (r: Option<T>)
        ensures
            r == lock_outcome(old(self)@).1,
            final(self)@ == lock_outcome(old(self)@).0,
            old(self)@ is Some && old(self)@.unwrap() is Some ==> r == old(self)@.unwrap()
                && final(self)@ == Some(None::<T>),
            old(self)@ is None ==> r is None && final(self)@ is None,
            old(self)@ == Some(None::<T>) ==> r is None && final(self)@ == old(self)@,
    {
        match self.cell.get_mut() {
            None => None,
            Some(m) => match m.try_lock() {
                None => None,
                Some(g) => Some(g.leak()),
            },
        }
    }

    /// Borrows the value exclusively: on an initialized, unborrowed cell the
    /// value moves into the returned guard; an empty or already borrowed
    /// cell refuses.  The guard is given back with [`OnceMut::unlock`].
    pub fn lock(&mut self) -> (r: Option<LockGuard<T>>)
        ensures
            final(self)@ == lock_outcome(old(self)@).0,
            r is Some <==> lock_outcome(old(self)@).1 is Some,
            r is Some ==> r.unwrap()@ == lock_outcome(old(self)@).1.unwrap(),
            old(self)@ is Some && old(self)@.unwrap() is Some ==> r is Some && r.unwrap()@ == old(
                self,
            )@.unwrap().unwrap() && final(self)@ == Some(None::<T>),
            old(self)@ is None ==> r is None && final(self)@ is None,
            old(self)@ == Some(None::<T>) ==> r is None && final(self)@ == old(self)@,
    {
        match self.cell.get_mut() {
            None => None,
            Some(m) => m.try_lock(),
        }
    }

    /// Releases the exclusive borrow: stores the guard's value back into the
    /// cell the guard was taken from, which may then be borrowed again.
    pub fn unlock(&mut self, guard: LockGuard<T>)
        requires
            old(self)@ == Some(None::<T>),
        ensures
            final(self)@ == Some(Some(guard@)),
    {
        match self.cell.get_mut() {
            Some(m) => m.unlock(guard),
            None => vstd::pervasive::unreached(),
        }
    }

    /// Consumes the cell and returns its value, if it holds one that is not
    /// out with a borrower.
    pub fn into_inner(self) -> (r: Option<T>)
        ensures
            self@ is Some && self@.unwrap() is Some ==> r == self@.unwrap(),
            !(self@ is Some && self@.unwrap() is Some) ==> r is None,
    {
        let mut cell = self;
        cell.take()
    }
}

/// The cell state after `n` successive `lock` attempts.
pub open spec fn run_locks<T>(state: Option<Option<T>>, n: nat) -> Option<Option<T>>
    decreases n,
{
    if n == 0 {
        state
    } else {
        run_locks(lock_outcome(state).0, (n - 1) as nat)
    }
}

/// How many of `n` successive `lock` attempts succeed.
pub open spec fn lock_success_count<T>(state: Option<Option<T>>, n: nat) -> nat
    decreases n,
{
    if n == 0 {
        0
    } else {
        (if lock_outcome(state).1 is Some {
            1nat
        } else {
            0nat
        }) + lock_success_count(lock_outcome(state).0, (n - 1) as nat)
    }
}

/// An empty or borrowed cell refuses every `lock` attempt: none succeeds
/// and the state never changes.
pub proof fn lemma_lock_refused_without_value<T>(state: Option<Option<T>>, n: nat)
    requires
        !(state is Some && state.unwrap() is Some),
    ensures
        run_locks(state, n) == state,
        lock_success_count(state, n) == 0,
    decreases n,
{
    if n > 0 {
        lemma_lock_refused_without_value(lock_outcome(state).0, (n - 1) as nat);
    }
}

/// Exclusive borrow: of any number of successive `lock` attempts, at most
/// one succeeds, and on an initialized, unborrowed cell exactly one does.
/// `unlock` puts the cell back into the initialized, unborrowed state, so a
/// released guard permits exactly one later successful acquisition.
pub proof fn lemma_exclusive_borrow<T>(state: Option<Option<T>>, n: nat)
    ensures
        lock_success_count(state, n) <= 1,
        state is Some && state.unwrap() is Some && n > 0 ==> lock_success_count(state, n) == 1,
{
    if state is Some && state.unwrap() is Some {
        if n > 0 {
            lemma_lock_refused_without_value(Some(None::<T>), (n - 1) as nat);
        }
    } else {
        lemma_lock_refused_without_value(state, n);
    }
}

} // verus!
