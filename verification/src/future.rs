//! The value that a request will have for an answer, once the answer arrives.

use vstd::prelude::*;

verus! {

/// A cell that is either unset or holds one value, and that is set at most
/// once: a value that was stored stays.
pub struct RclFuture<T> {
    value: Option<T>,
}

impl<T> View for RclFuture<T> {
    type V = Option<T>;

    closed spec fn view(&self) -> Option<T> {
        self.value
    }
}

impl<T> RclFuture<T> {
    /// A cell that holds nothing yet.
    pub fn new() -> (future: Self)
        ensures
            future@ is None,
    {
        RclFuture { value: None }
    }

    /// Stores `msg` if the cell is unset. A cell that already holds a value
    /// keeps it, and `msg` is dropped.
    pub fn set_value(&mut self, msg: T)
        ensures
            old(self)@ is None ==> final(self)@ == Some(msg),
            old(self)@ is Some ==> final(self)@ == old(self)@,
    {
        if self.value.is_none() {
            self.value = Some(msg);
        }
    }

    /// Whether a value has been stored.
    pub fn is_set(&self) -> (set: bool)
        ensures
            set == (self@ is Some),
    {
        self.value.is_some()
    }

    /// The stored value, if there is one. Does not wait.
    pub fn value(&self) -> (value: Option<&T>)
        ensures
            value is Some == self@ is Some,
            value matches Some(v) ==> self@ == Some(*v),
    {
        self.value.as_ref()
    }

    /// Gives up the cell for what it holds.
    pub fn into_value(self) -> (value: Option<T>)
        ensures
            value == self@,
    {
        self.value
    }
}

} // verus!
