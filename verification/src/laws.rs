//! Laws that relate the operations of the cell and its guard, each proved
//! from the operations' contracts alone.
//!
//! A law speaks of calls through `call_ensures`: the hypothesis
//! `call_ensures(f, args, out)` says that a call of `f` on `args` returned
//! `out`. For an argument passed by `&mut`, `old(..)` is its value when the
//! call was made and `final(..)` its value once the borrow has ended.
use crate::cell::is_placeholder;
use crate::cell::Borrow;
use crate::cell::MoveCell;
use vstd::prelude::*;

verus! {

/// What `replace` puts into a cell is what the cell holds afterwards: giving
/// the cell up then returns it, and `replace` itself returned what was there
/// before.
pub proof fn lemma_replace_then_read<T>(
    slot: &mut MoveCell<T>,
    new_value: T,
    previous: T,
    after: MoveCell<T>,
    read: T,
)
    requires
        call_ensures(MoveCell::<T>::replace, (slot, new_value), previous),
        after == *final(slot),
        call_ensures(MoveCell::<T>::into_inner, (after,), read),
    ensures
        previous == old(slot)@,
        read == new_value,
{
}

/// A value placed in a new cell comes back unchanged when the cell is given
/// up.
pub proof fn lemma_new_into_inner<T>(value: T, cell: MoveCell<T>, out: T)
    requires
        call_ensures(MoveCell::<T>::new, (value,), cell),
        call_ensures(MoveCell::<T>::into_inner, (cell,), out),
    ensures
        out == value,
{
}

/// For optional contents the placeholder is the absent value.
pub proof fn lemma_optional_placeholder<T>(value: Option<T>)
    requires
        is_placeholder(value),
    ensures
        value is None,
{
}

/// On optional contents, `take` returns what the cell held and leaves it
/// empty, so a second `take` right after it returns `None`.
pub proof fn lemma_take_twice<T>(
    first_slot: &mut MoveCell<Option<T>>,
    first: Option<T>,
    second_slot: &mut MoveCell<Option<T>>,
    second: Option<T>,
)
    requires
        call_ensures(MoveCell::<Option<T>>::take, (first_slot,), first),
        *old(second_slot) == *final(first_slot),
        call_ensures(MoveCell::<Option<T>>::take, (second_slot,), second),
    ensures
        first == old(first_slot)@,
        final(first_slot)@ is None,
        second is None,
        final(second_slot)@ is None,
{
}

/// `peek` puts the value back: a second `peek` is handed the value that the
/// first one was handed, and the cell holds it still.
pub proof fn lemma_peek_twice<T: Default, U, V, F: FnOnce(&T) -> U, G: FnOnce(&T) -> V>(
    first_slot: &mut MoveCell<T>,
    first_transform: F,
    first: U,
    second_slot: &mut MoveCell<T>,
    second_transform: G,
    second: V,
)
    requires
        call_ensures(MoveCell::<T>::peek, (first_slot, first_transform), first),
        *old(second_slot) == *final(first_slot),
        call_ensures(MoveCell::<T>::peek, (second_slot, second_transform), second),
    ensures
        call_ensures(first_transform, (&old(first_slot)@,), first),
        call_ensures(second_transform, (&old(first_slot)@,), second),
        final(second_slot)@ == old(first_slot)@,
{
}

/// Tearing a guard down gives the cell the value that the guard holds then.
/// `guard` is the guard as `borrow` returned it, `last` the same guard at
/// teardown, after any change to its value made through it.
pub proof fn lemma_restore_returns_value<'a, T: Default>(
    slot: &'a mut MoveCell<T>,
    guard: Borrow<'a, T>,
    last: Borrow<'a, T>,
)
    requires
        call_ensures(MoveCell::<T>::borrow, (slot,), guard),
        last.is_armed(),
        last.home() == guard.home(),
        call_ensures(Borrow::<'a, T>::restore, (last,), ()),
    ensures
        guard@ == old(slot)@,
        final(slot)@ == last@,
{
}

/// A guard that is consumed for its value gives nothing back: the value
/// that the cell held comes out, and the cell is left with the placeholder.
pub proof fn lemma_into_inner_leaves_placeholder<'a, T: Default>(
    slot: &'a mut MoveCell<T>,
    guard: Borrow<'a, T>,
    out: T,
)
    requires
        call_ensures(MoveCell::<T>::borrow, (slot,), guard),
        call_ensures(Borrow::<'a, T>::into_inner, (guard,), out),
    ensures
        out == old(slot)@,
        is_placeholder(final(slot)@),
{
}

/// `clone_inner` on a new cell returns what `T::clone` returns on the value
/// itself, and the value otherwise: where `T::clone` returns only equal
/// values, the copy equals the value.
pub proof fn lemma_clone_inner_of_new<T: Default + Clone>(
    value: T,
    cell: MoveCell<T>,
    slot: &mut MoveCell<T>,
    copy: T,
)
    requires
        call_ensures(MoveCell::<T>::new, (value,), cell),
        *old(slot) == cell,
        call_ensures(MoveCell::<T>::clone_inner, (slot,), copy),
    ensures
        cloned::<T>(value, copy),
        final(slot)@ == value,
        (forall|a: T, b: T| #[trigger] cloned::<T>(a, b) ==> a == b) ==> copy == value,
{
}

} // verus!
