//! A cell that may hold a value, and lends it out to closures.

use vstd::prelude::*;

verus! {

/// A cell that may hold a value of type `T`: it is taken, put back, and
/// lent to closures in place.
pub struct MapCell<T> {
    val: Option<T>,
}

impl<T> View for MapCell<T> {
    type V = Option<T>;

    /// The value the cell holds, if any.
    closed spec fn view(&self) -> Option<T> {
        self.val
    }
}

impl<T> MapCell<T> {
    /// Creates an empty `MapCell`.
    pub fn empty() -> (r: MapCell<T>)
        ensures
            r@ is None,
    {
        MapCell { val: None }
    }

    /// Creates a new `MapCell` containing `value`.
    pub fn new(value: T) -> (r: MapCell<T>)
        ensures
            r@ == Some(value),
    {
        MapCell { val: Some(value) }
    }

    /// Returns a boolean which indicates if the MapCell is unoccupied.
    pub fn is_none(&self) -> (r: bool)
        ensures
            r == (self@ is None),
    {
        !self.is_some()
    }

    /// Returns a boolean which indicates if the MapCell is occupied.
    pub fn is_some(&self) -> (r: bool)
        ensures
            r == (self@ is Some),
    {
        self.val.is_some()
    }

    /// Takes the value out of the `MapCell` leaving it empty.
    pub fn take(&mut self) -> (r: Option<T>)
        ensures
            r == old(self)@,
            final(self)@ is None,
    {
        if self.is_none() {
            None
        } else {
            let mut out: Option<T> = None;
            core::mem::swap(&mut out, &mut self.val);
            out
        }
    }

    /// Puts a value into the `MapCell`, dropping the value it held.
    pub fn put(&mut self, val: T)
        ensures
            final(self)@ == Some(val),
    {
        self.val = Some(val);
    }

    /// Replaces the contents of the `MapCell`, returning the old value if
    /// available.
    pub fn replace(&mut self, val: T) -> (r: Option<T>)
        ensures
            r == old(self)@,
            final(self)@ == Some(val),
    {
        if self.is_none() {
            self.put(val);
            None
        } else {
            let mut out: Option<T> = Some(val);
            core::mem::swap(&mut out, &mut self.val);
            out
        }
    }

    /// Allows closure to borrow the contents of the `MapCell` if-and-only-if
    /// it is not `take`n already. The state of the `MapCell` is unchanged
    /// after the closure completes.
    pub fn map<F, R>(&mut self, closure: F) -> (r: Option<R>)
        where
            F: FnOnce(&mut T) -> R,
        requires
            old(self)@ is Some ==> forall|x: &mut T| *x == old(self)@->Some_0 ==> #[trigger] closure.requires((x,)),
        ensures
            old(self)@ is None ==> r is None && final(self)@ is None,
            old(self)@ is Some ==> r is Some && final(self)@ is Some && exists|x: &mut T| {
                &&& *x == old(self)@->Some_0
                &&& final(self)@->Some_0 == *final(x)
                &&& closure.ensures((x,), r->Some_0)
            },
    {
        match &mut self.val {
            Some(v) => Some(closure(v)),
            None => None,
        }
    }

    /// Behaves the same as `map`, except the closure is allowed to return
    /// an `Option`.
    pub fn and_then<F, R>(&mut self, closure: F) -> (r: Option<R>)
        where
            F: FnOnce(&mut T) -> Option<R>,
        requires
            old(self)@ is Some ==> forall|x: &mut T| *x == old(self)@->Some_0 ==> #[trigger] closure.requires((x,)),
        ensures
            old(self)@ is None ==> r is None && final(self)@ is None,
            old(self)@ is Some ==> final(self)@ is Some && exists|x: &mut T| {
                &&& *x == old(self)@->Some_0
                &&& final(self)@->Some_0 == *final(x)
                &&& closure.ensures((x,), r)
            },
    {
        match &mut self.val {
            Some(v) => closure(v),
            None => None,
        }
    }

    /// Behaves the same as `map`, except it returns `default` when the cell
    /// is empty.
    pub fn map_or<F, R>(&mut self, default: R, closure: F) -> (r: R)
        where
            F: FnOnce(&mut T) -> R,
        requires
            old(self)@ is Some ==> forall|x: &mut T| *x == old(self)@->Some_0 ==> #[trigger] closure.requires((x,)),
        ensures
            old(self)@ is None ==> r == default && final(self)@ is None,
            old(self)@ is Some ==> final(self)@ is Some && exists|x: &mut T| {
                &&& *x == old(self)@->Some_0
                &&& final(self)@->Some_0 == *final(x)
                &&& closure.ensures((x,), r)
            },
    {
        match self.map(closure) {
            Some(r) => r,
            None => default,
        }
    }

    /// Lends the value to `modify` if there is one, or else fills the cell
    /// with what `mkval` makes.
    pub fn modify_or_replace<F, G>(&mut self, modify: F, mkval: G)
        where
            F: FnOnce(&mut T),
            G: FnOnce() -> T,
        requires
            old(self)@ is Some ==> forall|x: &mut T| *x == old(self)@->Some_0 ==> #[trigger] modify.requires((x,)),
            old(self)@ is None ==> mkval.requires(()),
        ensures
            final(self)@ is Some,
            old(self)@ is None ==> mkval.ensures((), final(self)@->Some_0),
            old(self)@ is Some ==> exists|x: &mut T| {
                &&& *x == old(self)@->Some_0
                &&& final(self)@->Some_0 == *final(x)
                &&& modify.ensures((x,), ())
            },
    {
        if self.map(modify).is_none() {
            self.put(mkval());
        }
    }
}

} // verus!
