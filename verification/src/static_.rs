use crate::once_cell::OnceCell;
use crate::once_mut::LockGuard;
use crate::once_mut::OnceMut;
use vstd::prelude::*;

verus! {

/// A cell paired with the zero-argument constructor that is meant to fill
/// it, for deferred, explicit, fallible initialization of long-lived
/// values.
///
/// Initialization cannot happen implicitly on first access, because it can
/// fail under contention; it is requested explicitly with `init`, which
/// reports whether this call was the one that filled the cell.  The other
/// operations of the wrapped cell are forwarded.
#[verifier::reject_recursive_types(T)]
pub struct LockFreeStatic<T, D, F: Fn() -> T> {
    base: D,
    ctor: F,
}

impl<T, D, F: Fn() -> T> LockFreeStatic<T, D, F> {
    /// The wrapped cell.
    pub closed spec fn base(self) -> D {
        self.base
    }

    /// The paired constructor.
    pub closed spec fn ctor(self) -> F {
        self.ctor
    }

    /// Creates a new wrapper around `base`, pairing it with `ctor`.
    pub fn new(base: D, ctor: F) -> (r: Self)
        ensures
            r.base() == base,
            r.ctor() == ctor,
    {
        LockFreeStatic { base, ctor }
    }
}

impl<T, F: Fn() -> T> LockFreeStatic<T, OnceCell<T>, F> {
    /// Initializes the wrapped cell with the paired constructor; `true` is
    /// returned iff the cell was filled by this call.  The constructor runs
    /// even when the cell is already occupied; its result is then
    /// discarded.
    pub fn init(&mut self) -> (r: bool)
        requires
            call_requires(old(self).ctor(), ()),
        ensures
            r == (old(self).base()@ is None),
            final(self).ctor() == old(self).ctor(),
            r ==> final(self).base()@ is Some && call_ensures(
                old(self).ctor(),
                (),
                final(self).base()@.unwrap(),
            ),
            !r ==> final(self).base()@ == old(self).base()@,
    {
        let v = (self.ctor)();
        self.base.set(v).is_ok()
    }

    /// Returns a reference to the value of the wrapped cell, or `None`
    /// while it is empty.
    pub fn get(&self) -> (r: Option<&T>)
        ensures
            self.base()@ is None ==> r is None,
            self.base()@ is Some ==> r is Some && *r.unwrap() == self.base()@.unwrap(),
    {
        self.base.get()
    }
}

impl<T, F: Fn() -> T> LockFreeStatic<T, OnceMut<T>, F> {
    /// Initializes the wrapped cell with the paired constructor; `true` is
    /// returned iff the cell was filled by this call.  The constructor runs
    /// even when the cell is already occupied; its result is then
    /// discarded.
    pub fn init(&mut self) -> (r: bool)
        requires
            call_requires(old(self).ctor(), ()),
        ensures
            r == (old(self).base()@ is None),
            final(self).ctor() == old(self).ctor(),
            r ==> final(self).base()@ is Some && final(self).base()@.unwrap() is Some
                && call_ensures(old(self).ctor(), (), final(self).base()@.unwrap().unwrap()),
            !r ==> final(self).base()@ == old(self).base()@,
    {
        let v = (self.ctor)();
        self.base.set(v).is_ok()
    }

    /// Borrows the value of the wrapped cell exclusively, as
    /// [`OnceMut::lock`] does.
    pub fn lock(&mut self) -> (r: Option<LockGuard<T>>)
        ensures
            final(self).ctor() == old(self).ctor(),
            final(self).base()@ == crate::once_mut::lock_outcome(old(self).base()@).0,
            r is Some <==> crate::once_mut::lock_outcome(old(self).base()@).1 is Some,
            r is Some ==> r.unwrap()@ == crate::once_mut::lock_outcome(old(self).base()@).1.unwrap(),
    {
        self.base.lock()
    }

    /// Releases the exclusive borrow, as [`OnceMut::unlock`] does.
    pub fn unlock(&mut self, guard: LockGuard<T>)
        requires
            old(self).base()@ == Some(None::<T>),
        ensures
            final(self).ctor() == old(self).ctor(),
            final(self).base()@ == Some(Some(guard@)),
    {
        self.base.unlock(guard)
    }

    /// Hands the value of the wrapped cell over for good, as
    /// [`OnceMut::get_mut`] does: the cell stays borrowed forever.
    pub fn get_mut(&mut self) -> (r: Option<T>)
        ensures
            final(self).ctor() == old(self).ctor(),
            r == crate::once_mut::lock_outcome(old(self).base()@).1,
            final(self).base()@ == crate::once_mut::lock_outcome(old(self).base()@).0,
    {
        self.base.get_mut()
    }
}

} // verus!
