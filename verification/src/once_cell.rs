use vstd::prelude::*;

verus! {

/// A cell that holds at most one value of type `T`.
///
/// The cell starts empty and accepts exactly one value; every later attempt
/// to store one is refused, and the rejected value (or the unevaluated
/// factory) is handed back to the caller.  `take` moves the value out again
/// and returns the cell to its empty state, after which a new value may be
/// stored.
///
/// The abstract state of a cell is an `Option<T>`: `None` while the cell is
/// empty, `Some(v)` once `v` has been stored.
pub struct OnceCell<T> {
    value: Option<T>,
}

impl<T> View for OnceCell<T> {
    type V = Option<T>;

    closed spec fn view(&self) -> Option<T> {
        self.value
    }
}

/// State transition and result of [`OnceCell::set`]: storing into an empty
/// cell succeeds, storing into an occupied cell is refused and returns the
/// rejected value unchanged.
pub open spec fn set_outcome<T>(state: Option<T>, v: T) -> (Option<T>, Result<(), T>) {
    match state {
        None => (Some(v), Ok(())),
        Some(_) => (state, Err(v)),
    }
}

impl<T> OnceCell<T> {
    /// Creates an empty cell.
    pub fn new() -> (r: Self)
        ensures
            r@ is None,
    {
        OnceCell { value: None }
    }

    /// Stores `value` if the cell is empty; on an occupied cell the call is
    /// refused and `value` is handed back unchanged.
    pub fn set(&mut self, value: T) -> (r: Result<(), T>)
        ensures
            (final(self)@, r) == set_outcome(old(self)@, value),
            old(self)@ is None ==> r is Ok && final(self)@ == Some(value),
            old(self)@ is Some ==> r == Err::<(), T>(value) && final(self)@ == old(self)@,
    {
        if self.value.is_some() {
            Err(value)
        } else {
            self.value = Some(value);
            Ok(())
        }
    }

    /// Stores the value produced by `ctor` if the cell is empty; `ctor` is
    /// called only in that case.  On an occupied cell the factory is handed
    /// back unevaluated.
    pub fn set_with<F: FnOnce() -> T>(&mut self, ctor: F) -> (r: Result<(), F>)
        requires
            old(self)@ is None ==> call_requires(ctor, ()),
        ensures
            old(self)@ is Some ==> r == Err::<(), F>(ctor) && final(self)@ == old(self)@,
            old(self)@ is None ==> r is Ok && final(self)@ is Some && call_ensures(
                ctor,
                (),
                final(self)@.unwrap(),
            ),
    {
        if self.value.is_some() {
            Err(ctor)
        } else {
            let v = ctor();
            self.value = Some(v);
            Ok(())
        }
    }

    /// Returns a reference to the stored value, or `None` while the cell is
    /// empty.
    pub fn get(&self) -> (r: Option<&T>)
        ensures
            self@ is None ==> r is None,
            self@ is Some ==> r is Some && *r.unwrap() == self@.unwrap(),
    {
        self.value.as_ref()
    }

    /// Returns a mutable reference to the stored value, or `None` while the
    /// cell is empty.
    pub fn get_mut(&mut self) -> (r: Option<&mut T>)
        ensures
            old(self)@ is None ==> r is None && final(self)@ is None,
            old(self)@ is Some ==> r is Some && *r.unwrap() == old(self)@.unwrap()
                && final(self)@ == Some(*final(r.unwrap())),
    {
        self.value.as_mut()
    }

    /// Returns a reference to the stored value, first initializing the cell
    /// with `ctor()` if it is empty.
    ///
    /// The `Err` refusal exists for a caller that finds someone else's
    /// initialization still in flight; a caller that holds the cell
    /// exclusively never sees it, so this call always returns `Ok`.
    pub fn get_or_init<F: FnOnce() -> T>(&mut self, ctor: F) -> (r: Result<&T, F>)
        requires
            old(self)@ is None ==> call_requires(ctor, ()),
        ensures
            r is Ok,
            old(self)@ is Some ==> final(self)@ == old(self)@,
            old(self)@ is None ==> final(self)@ is Some && call_ensures(
                ctor,
                (),
                final(self)@.unwrap(),
            ),
            r is Ok ==> *r->Ok_0 == final(self)@.unwrap(),
    {
        if self.value.is_none() {
            let v = ctor();
            self.value = Some(v);
        }
        Ok(self.value.as_ref().unwrap())
    }

    /// Moves the value out, leaving the cell empty.
    pub fn take(&mut self) -> (r: Option<T>)
        ensures
            r == old(self)@,
            final(self)@ is None,
    {
        self.value.take()
    }

    /// Consumes the cell and returns the stored value, if any.
    pub fn into_inner(self) -> (r: Option<T>)
        ensures
            r == self@,
    {
        let mut cell = self;
        cell.take()
    }
}

/// The cell state after a sequence of `set` attempts with the values `vs`,
/// applied first to last.
pub open spec fn run_sets<T>(state: Option<T>, vs: Seq<T>) -> Option<T>
    decreases vs.len(),
{
    if vs.len() == 0 {
        state
    } else {
        run_sets(set_outcome(state, vs[0]).0, vs.skip(1))
    }
}

/// How many `set` attempts out of a sequence with the values `vs` succeed.
pub open spec fn set_success_count<T>(state: Option<T>, vs: Seq<T>) -> nat
    decreases vs.len(),
{
    if vs.len() == 0 {
        0
    } else {
        (if set_outcome(state, vs[0]).1 is Ok {
            1nat
        } else {
            0nat
        }) + set_success_count(set_outcome(state, vs[0]).0, vs.skip(1))
    }
}

/// An occupied cell refuses every `set` attempt: none succeeds and the
/// stored value never changes.
pub proof fn lemma_set_refused_when_occupied<T>(state: Option<T>, vs: Seq<T>)
    requires
        state is Some,
    ensures
        run_sets(state, vs) == state,
        set_success_count(state, vs) == 0,
    decreases vs.len(),
{
    if vs.len() > 0 {
        lemma_set_refused_when_occupied(set_outcome(state, vs[0]).0, vs.skip(1));
    }
}

/// At-most-once store: of any number of `set` attempts on a fresh cell,
/// exactly the first succeeds; every later one is refused (and, by
/// [`set_outcome`], hands its value back), and the cell keeps the first
/// value.  `set_with` makes the same transition with its factory's output
/// as the value, so the law covers it as well.
pub proof fn lemma_at_most_once_set<T>(vs: Seq<T>)
    ensures
        set_success_count(None::<T>, vs) == if vs.len() == 0 {
            0nat
        } else {
            1nat
        },
        vs.len() > 0 ==> run_sets(None::<T>, vs) == Some(vs[0]),
{
    if vs.len() > 0 {
        lemma_set_refused_when_occupied(Some(vs[0]), vs.skip(1));
    }
}

/// Visibility: once `set(v)` has succeeded, no later `set` attempt changes
/// the cell, so every later `get` sees the whole of `v` (by the
/// postcondition of [`OnceCell::get`]).
pub proof fn lemma_visibility_after_set<T>(v: T, vs: Seq<T>)
    ensures
        set_outcome(None::<T>, v).1 is Ok,
        run_sets(Some(v), vs) == Some(v),
{
    lemma_set_refused_when_occupied(Some(v), vs);
}

} // verus!
