//! The cell and the guard that borrows from it.
use crate::text::bracket;
use crate::text::bracketed;
use crate::text::debug_text;
use vstd::prelude::*;
use vstd::std_specs::cmp::PartialEqSpec;

verus! {

/// Whether `value` is one that `T::default()` may return.
///
/// Such a value stands in a cell's slot while the real value is out: after
/// [`MoveCell::take`], and for as long as a [`Borrow`] guard is alive.
pub open spec fn is_placeholder<T: Default>(value: T) -> bool {
    call_ensures(T::default, (), value)
}

/// A slot that always holds exactly one `T`.
///
/// The view of a cell is the value in its slot.
#[derive(Debug)]
pub struct MoveCell<T>(T);

impl<T> View for MoveCell<T> {
    type V = T;

    closed spec fn view(&self) -> T {
        self.0
    }
}

impl<T> MoveCell<T> {
    /// A cell that holds `value`.
    pub fn new(value: T) -> (cell: MoveCell<T>)
        ensures
            cell@ == value,
    {
        MoveCell(value)
    }

    /// Gives up the cell and returns the value it held.
    pub fn into_inner(self) -> (value: T)
        ensures
            value == self@,
    {
        self.0
    }

    /// Puts `new_value` into the slot and returns the value that was there.
    pub fn replace(&mut self, new_value: T) -> (previous: T)
        ensures
            previous == old(self)@,
            final(self)@ == new_value,
    {
        let mut held = new_value;
        core::mem::swap(&mut self.0, &mut held);
        held
    }
}

impl<T: Default> MoveCell<T> {
    /// Returns the value in the slot and leaves a placeholder behind.
    ///
    /// Where the contents are optional the placeholder is `None`; see
    /// [`crate::laws::lemma_optional_placeholder`].
    pub fn take(&mut self) -> (previous: T)
        ensures
            previous == old(self)@,
            is_placeholder(final(self)@),
    {
        self.replace(T::default())
    }

    /// Moves the value out of the slot into a guard.
    ///
    /// The slot holds a placeholder for as long as the guard is alive. What
    /// the cell holds once the borrow has ended is what the guard's home
    /// holds then: the guard's value after [`Borrow::restore`] or after the
    /// guard is dropped, the placeholder after [`Borrow::into_inner`].
    pub fn borrow(&mut self) -> (guard: Borrow<'_, T>)
        ensures
            guard@ == old(self)@,
            guard.is_armed(),
            is_placeholder(guard.home()@),
            *final(self) == *final(guard.home()),
    {
        let value = self.take();
        Borrow { home: Some(self), value }
    }

    /// Applies `transform` to a reference to the value and returns what it
    /// returns. The value is out of the slot during the call and back in it
    /// afterwards; should `transform` unwind, the guard puts it back.
    pub fn peek<U, F: FnOnce(&T) -> U>(&mut self, transform: F) -> (out: U)
        requires
            call_requires(transform, (&old(self)@,)),
        ensures
            call_ensures(transform, (&old(self)@,), out),
            final(self)@ == old(self)@,
    {
        let guard = self.borrow();
        let out = transform(&guard.value);
        guard.restore();
        out
    }

    /// A clone of the value, which stays in the cell.
    pub fn clone_inner(&mut self) -> (copy: T) where T: Clone
        ensures
            cloned::<T>(old(self)@, copy),
            final(self)@ == old(self)@,
    {
        let duplicate = |value: &T| -> (copy: T)
            ensures
                cloned(*value, copy),
            { value.clone() };
        self.peek(duplicate)
    }
}

impl<T> MoveCell<Option<T>> {
    /// Whether the cell holds a value.
    pub fn is_some(&self) -> (present: bool)
        ensures
            present == (self@ is Some),
    {
        self.0.is_some()
    }

    /// Whether the cell is empty.
    pub fn is_none(&self) -> (absent: bool)
        ensures
            absent == (self@ is None),
    {
        self.0.is_none()
    }

    /// Applies `transform` to the value if there is one. The contents stay
    /// as they were.
    pub fn map_inner<U, F: FnOnce(&T) -> U>(&mut self, transform: F) -> (out: Option<U>)
        requires
            old(self)@ matches Some(value) ==> call_requires(transform, (&value,)),
        ensures
            final(self)@ == old(self)@,
            match old(self)@ {
                Some(value) => out matches Some(mapped) && call_ensures(
                    transform,
                    (&value,),
                    mapped,
                ),
                None => out is None,
            },
    {
        let guard = self.borrow();
        let out = match &guard.value {
            Some(value) => Some(transform(value)),
            None => None,
        };
        guard.restore();
        out
    }
}

impl<T: core::fmt::Debug> MoveCell<T> {
    /// The text `MoveCell(..)` around the `Debug` text of the value.
    pub fn debug_string(&self) -> (text: String)
        ensures
            exists|inner: Seq<char>| text@ == bracketed("MoveCell"@, inner),
    {
        let inner = debug_text(&self.0);
        bracket("MoveCell", inner.as_str())
    }
}

impl<T: Default> Default for MoveCell<T> {
    /// A cell that holds `T`'s default value.
    fn default() -> (cell: MoveCell<T>)
        ensures
            is_placeholder(cell@),
    {
        MoveCell(T::default())
    }
}

impl<T: Clone> Clone for MoveCell<T> {
    /// A new cell around a clone of the value.
    fn clone(&self) -> (copy: MoveCell<T>)
        ensures
            cloned::<T>(self@, copy@),
    {
        MoveCell(self.0.clone())
    }
}

impl<T: PartialEq + PartialEqSpec> PartialEq for MoveCell<T> {
    /// Two cells are equal when their values are.
    fn eq(&self, other: &MoveCell<T>) -> (equal: bool) {
        self.0 == other.0
    }

    fn ne(&self, other: &MoveCell<T>) -> (unequal: bool) {
        self.0 != other.0
    }
}

impl<T: PartialEq + PartialEqSpec> vstd::std_specs::cmp::PartialEqSpecImpl for MoveCell<T> {
    open spec fn obeys_eq_spec() -> bool {
        T::obeys_eq_spec()
    }

    open spec fn eq_spec(&self, other: &MoveCell<T>) -> bool {
        self@.eq_spec(&other@)
    }
}

impl<T: Eq + PartialEqSpec> Eq for MoveCell<T> {

}

/// A value on loan from a [`MoveCell`].
///
/// The guard owns the value; the cell it came from, its home, holds a
/// placeholder meanwhile. The view of a guard is the value it holds. A guard
/// is armed while it still owes its value to its home.
pub struct Borrow<'a, T> {
    home: Option<&'a mut MoveCell<T>>,
    value: T,
}

impl<'a, T> View for Borrow<'a, T> {
    type V = T;

    closed spec fn view(&self) -> T {
        self.value
    }
}

impl<'a, T> Borrow<'a, T> {
    /// Whether teardown will give the value back to the home.
    pub closed spec fn is_armed(&self) -> bool {
        self.home is Some
    }

    /// The cell that the value came from. Meaningful while the guard is armed.
    pub closed spec fn home(&self) -> &mut MoveCell<T> {
        self.home->0
    }

    /// Ends the borrow now: the home gets the value that the guard holds at
    /// this point, whatever was done to it through the guard.
    pub fn restore(self)
        ensures
            self.is_armed() ==> final(self.home())@ == self@,
    {
        let mut guard = self;
        guard.give_back();
    }

    /// Swaps the value into the home and disarms the guard.
    fn give_back(&mut self)
        ensures
            old(self).is_armed() ==> final(old(self).home())@ == old(self)@,
            !final(self).is_armed(),
        opens_invariants none
        no_unwind
    {
        let mut home: Option<&'a mut MoveCell<T>> = None;
        core::mem::swap(&mut self.home, &mut home);
        match home {
            Some(cell) => {
                core::mem::swap(&mut self.value, &mut cell.0);
            },
            None => {},
        }
    }

    /// The text `movecell::Borrow(..)` around the `Debug` text of the value.
    pub fn debug_string(&self) -> (text: String) where T: core::fmt::Debug
        ensures
            exists|inner: Seq<char>| text@ == bracketed("movecell::Borrow"@, inner),
    {
        let inner = debug_text(&self.value);
        bracket("movecell::Borrow", inner.as_str())
    }
}

impl<'a, T: Default> Borrow<'a, T> {
    /// Keeps the value for good: the guard is disarmed and the home is left
    /// with its placeholder.
    pub fn into_inner(self) -> (value: T)
        ensures
            value == self@,
            self.is_armed() ==> *final(self.home()) == *self.home(),
    {
        let mut guard = self;
        let mut value = T::default();
        let mut home: Option<&'a mut MoveCell<T>> = None;
        core::mem::swap(&mut guard.home, &mut home);
        core::mem::swap(&mut guard.value, &mut value);
        value
    }
}

impl<'a, T> Drop for Borrow<'a, T> {
    /// Teardown: an armed guard gives its value back to its home.
    fn drop(&mut self)
        ensures
            old(self).is_armed() ==> final(old(self).home())@ == old(self)@,
        opens_invariants none
        no_unwind
    {
        self.give_back();
    }
}

impl<'a, T> core::ops::Deref for Borrow<'a, T> {
    type Target = T;

    fn deref(&self) -> (value: &T)
        ensures
            *value == self@,
    {
        &self.value
    }
}

impl<'a, T> core::ops::DerefMut for Borrow<'a, T> {
    /// Access to the value in place. What is written through the reference
    /// is the guard's value afterwards; the home and the arming stay.
    fn deref_mut(&mut self) -> (value: &mut T)
        ensures
            *value == old(self)@,
            final(self)@ == *final(value),
            final(self).is_armed() == old(self).is_armed(),
            final(self).home() == old(self).home(),
    {
        &mut self.value
    }
}

} // verus!
