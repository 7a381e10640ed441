use vstd::prelude::*;
use crate::error::RuntimeError;
use crate::value::Value;

verus! {

/// A fixed-capacity bank of local slots for one activation. A slot is empty
/// until a value is stored in it; the capacity never changes.
pub struct Locals {
    slots: Vec<Option<Value>>,
}

impl View for Locals {
    type V = Seq<Option<Value>>;

    closed spec fn view(&self) -> Seq<Option<Value>> {
        self.slots@
    }
}

impl Locals {
    /// A bank of `capacity` empty slots.
    pub fn new(capacity: usize) -> (r: Locals)
        ensures
            r@.len() == capacity,
            forall|i: int| 0 <= i < capacity ==> r@[i].is_none(),
    {
        let mut slots: Vec<Option<Value>> = Vec::with_capacity(capacity);
        let mut k: usize = 0;
        while k < capacity
            invariant
                k <= capacity,
                slots@.len() == k,
                forall|i: int| 0 <= i < k ==> slots@[i].is_none(),
            decreases capacity - k,
        {
            slots.push(None);
            k = k + 1;
        }
        Locals { slots }
    }

    /// Number of slots.
    pub fn capacity(&self) -> (r: usize)
        ensures
            r == self@.len(),
    {
        self.slots.len()
    }

    /// Stores `value` at `index`. An index at or past the capacity is refused
    /// and leaves the bank unchanged: the bank never grows.
    pub fn store(&mut self, index: usize, value: Value) -> (r: Result<(), RuntimeError>)
        ensures
            index < old(self)@.len() ==> r is Ok && final(self)@ == old(self)@.update(index as int, Some(value)),
            index >= old(self)@.len() ==> r == Err::<(), RuntimeError>(RuntimeError::LocalsIndexOutOfBounds)
                && final(self)@ == old(self)@,
    {
        if index >= self.slots.len() {
            return Err(RuntimeError::LocalsIndexOutOfBounds);
        }
        self.slots.set(index, Some(value));
        Ok(())
    }

    /// The content of the slot at `index`: `None` while the slot is empty.
    pub fn load(&self, index: usize) -> (r: Result<Option<Value>, RuntimeError>)
        ensures
            index < self@.len() ==> r == Ok::<Option<Value>, RuntimeError>(self@[index as int]),
            index >= self@.len() ==> r == Err::<Option<Value>, RuntimeError>(RuntimeError::LocalsIndexOutOfBounds),
    {
        if index >= self.slots.len() {
            return Err(RuntimeError::LocalsIndexOutOfBounds);
        }
        Ok(self.slots[index])
    }
}

} // verus!
