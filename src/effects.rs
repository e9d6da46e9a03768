use vstd::prelude::*;
use crate::source::{aux_sends, send_slots};

verus! {

/// The global effects, in the order in which they were added. An effect's
/// position is the send slot through which every source that does not bypass
/// global effects reaches it. Effects are only ever added. `E` is the handle
/// of a device effect slot.
pub struct GlobalEffects<E> {
    slots: Vec<E>,
}

impl<E> View for GlobalEffects<E> {
    type V = Seq<E>;

    closed spec fn view(&self) -> Seq<E> {
        self.slots@
    }
}

impl<E> GlobalEffects<E> {
    /// No global effects.
    pub fn new() -> (r: GlobalEffects<E>)
        ensures
            r@ == Seq::<E>::empty(),
    {
        GlobalEffects { slots: Vec::new() }
    }

    /// Adds an effect after those already there.
    pub fn push(&mut self, effect: E)
        ensures
            final(self)@ == old(self)@.push(effect),
    {
        self.slots.push(effect);
    }

    /// The number of effects.
    pub fn len(&self) -> (r: usize)
        ensures
            r == self@.len(),
    {
        self.slots.len()
    }

    /// Whether there are no effects.
    pub fn is_empty(&self) -> (r: bool)
        ensures
            r == (self@.len() == 0),
    {
        self.slots.len() == 0
    }

    /// The effect at a position.
    pub fn get(&self, index: usize) -> (r: Option<&E>)
        ensures
            index < self@.len() ==> (r matches Some(e) && *e == self@[index as int]),
            index >= self@.len() ==> r is None,
    {
        if index < self.slots.len() {
            Some(&self.slots[index])
        } else {
            None
        }
    }

    /// The effect at a position, to be wired onto a source.
    pub fn get_mut(&mut self, index: usize) -> (r: &mut E)
        requires
            index < old(self)@.len(),
        ensures
            *r == old(self)@[index as int],
            final(self)@ == old(self)@.update(index as int, *final(r)),
    {
        &mut self.slots[index]
    }

    /// The send slots a source wires: one per effect, at its position, or
    /// none for a source that bypasses global effects.
    pub fn sends(&self, bypass: bool) -> (r: Vec<usize>)
        ensures
            r@ == (if bypass { Seq::<usize>::empty() } else { send_slots(self@.len()) }),
    {
        aux_sends(bypass, self.slots.len())
    }
}

} // verus!
