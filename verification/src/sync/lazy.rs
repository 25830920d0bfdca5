//! A cell written at most once, and a value computed on its first use.
use vstd::prelude::*;

verus! {

/// The value of a cell holding `v` after an attempt to write `x`: a cell
/// already written keeps its value.
pub open spec fn written<T>(v: Option<T>, x: T) -> Option<T> {
    match v {
        Some(_) => v,
        None => Some(x),
    }
}

/// Law: a cell is written at most once: after a write it holds a value, and
/// a later write leaves that value in place.
pub proof fn lemma_write_once<T>(v: Option<T>, x: T, y: T)
    ensures
        written(v, x) is Some,
        written(written(v, x), y) == written(v, x),
        v is None ==> written(v, x) == Some(x),
{
}

/// A cell that is written at most once.
#[derive(PartialEq, Eq, Debug)]
pub struct OnceCell<T> {
    inner: Option<T>,
}

impl<T> From<T> for OnceCell<T> {
    /// A cell that already holds `value`.
    fn from(value: T) -> (c: OnceCell<T>) {
        OnceCell { inner: Some(value) }
    }
}

impl<T> vstd::std_specs::convert::FromSpecImpl<T> for OnceCell<T> {
    open spec fn obeys_from_spec() -> bool {
        true
    }

    /// The cell holding `v`.
    closed spec fn from_spec(v: T) -> OnceCell<T> {
        OnceCell { inner: Some(v) }
    }
}

/// Law: a cell made from a value holds that value.
pub proof fn lemma_from_holds<T>(v: T)
    ensures
        <OnceCell<T> as vstd::std_specs::convert::FromSpec<T>>::from_spec(v).value() == Some(v),
{
}

impl<T: Clone> Clone for OnceCell<T> {
    /// A cell holding a clone of this cell's value, if any.
    fn clone(&self) -> (c: OnceCell<T>)
        ensures
            c.value() is Some <==> self.value() is Some,
            self.value() matches Some(v) ==> cloned(v, c.value()->0),
    {
        let mut res = OnceCell::new();
        if let Some(value) = self.get() {
            let _ = res.set(value.clone());
        }
        res
    }
}

impl<T> OnceCell<T> {
    /// The cell's value, if it has been written.
    pub closed spec fn value(&self) -> Option<T> {
        self.inner
    }

    /// An empty cell.
    pub fn new() -> (c: OnceCell<T>)
        ensures
            c.value() is None,
    {
        OnceCell { inner: None }
    }

    /// The cell's value, if it has been written.
    pub fn get(&self) -> (r: Option<&T>)
        ensures
            r is Some <==> self.value() is Some,
            r matches Some(v) ==> *v == self.value()->0,
    {
        self.inner.as_ref()
    }

    /// Writes `value` into an empty cell; a cell already written is left
    /// alone and `value` is handed back.
    pub fn set(&mut self, value: T) -> (r: Result<(), T>)
        ensures
            final(self).value() == written(old(self).value(), value),
            old(self).value() is Some ==> r == Err::<(), T>(value),
            old(self).value() is None ==> r == Ok::<(), T>(()),
    {
        if self.inner.is_some() {
            return Err(value);
        }
        self.inner = Some(value);
        Ok(())
    }

    /// The cell's value; an empty cell is first filled with what `f` returns.
    pub fn get_or_init<F>(&mut self, f: F) -> (r: &T) where F: FnOnce() -> T
        requires
            old(self).value() is None ==> f.requires(()),
        ensures
            old(self).value() matches Some(v) ==> *r == v && final(self).value() == old(self).value(),
            old(self).value() is None ==> f.ensures((), *r) && final(self).value() == Some(*r),
    {
        if self.inner.is_none() {
            let val = f();
            self.inner = Some(val);
        }
        self.inner.as_ref().unwrap()
    }

    /// The cell's value; an empty cell is first filled with what `f`
    /// returns, unless `f` fails, in which case its error is returned and the
    /// cell stays empty.
    pub fn get_or_try_init<F, E>(&mut self, f: F) -> (r: Result<&T, E>) where
        F: FnOnce() -> Result<T, E>,
        requires
            old(self).value() is None ==> f.requires(()),
        ensures
            old(self).value() matches Some(v) ==> (r matches Ok(x) && *x == v) && final(self).value()
                == old(self).value(),
            old(self).value() is None ==> (r matches Ok(x) ==> f.ensures((), Ok::<T, E>(*x))
                && final(self).value() == Some(*x)),
            old(self).value() is None ==> (r matches Err(e) ==> f.ensures((), Err::<T, E>(e))
                && final(self).value() is None),
    {
        if self.inner.is_some() {
            return Ok(self.inner.as_ref().unwrap());
        }
        let val = f()?;
        self.inner = Some(val);
        Ok(self.inner.as_ref().unwrap())
    }
}

/// A value computed by `init` the first time it is needed.
pub struct Lazy<T, F> {
    cell: OnceCell<T>,
    init: Option<F>,
}

impl<T, F> Lazy<T, F> {
    /// The value, once computed.
    pub closed spec fn value(&self) -> Option<T> {
        self.cell.value()
    }

    /// The initialiser, while the value has not been computed.
    pub closed spec fn initializer(&self) -> Option<F> {
        self.init
    }

    /// A lazy value computed by `init`.
    pub fn new(init: F) -> (l: Lazy<T, F>)
        ensures
            l.value() is None,
            l.initializer() == Some(init),
    {
        Lazy { cell: OnceCell::new(), init: Some(init) }
    }
}

impl<T, F: FnOnce() -> T> Lazy<T, F> {
    /// The value; the first call computes it with the initialiser, which is
    /// used up.
    pub fn force(this: &mut Lazy<T, F>) -> (r: &T)
        requires
            old(this).value() is None ==> (old(this).initializer() matches Some(f) && f.requires(())),
        ensures
            old(this).value() matches Some(v) ==> *r == v && final(this).value() == old(this).value()
                && final(this).initializer() == old(this).initializer(),
            old(this).value() is None ==> old(this).initializer()->0.ensures((), *r)
                && final(this).value() == Some(*r) && final(this).initializer() is None,
    {
        if this.cell.inner.is_none() {
            let f = this.init.take().unwrap();
            let v = f();
            this.cell.inner = Some(v);
        }
        this.cell.inner.as_ref().unwrap()
    }
}

} // verus!
