//! The last-value store: the most recent payload that the reader received.

use vstd::prelude::*;

verus! {

/// Holds the payload of the most recent successful read and nothing else.
///
/// The store keeps no history: every update replaces the whole contents,
/// whether the new payload is longer, shorter or empty.
#[derive(Debug, Clone)]
pub struct SharedData {
    last_received: Vec<u8>,
}

impl View for SharedData {
    type V = Seq<u8>;

    /// The bytes currently held.
    closed spec fn view(&self) -> Seq<u8> {
        self.last_received@
    }
}

impl SharedData {
    /// An empty store, as it is before anything has been received.
    pub fn new() -> (store: Self)
        ensures
            store@ == Seq::<u8>::empty(),
    {
        SharedData { last_received: Vec::new() }
    }

    /// Replaces the contents with `data`; what was held before is gone.
    pub fn update(&mut self, data: Vec<u8>)
        ensures
            final(self)@ == data@,
    {
        self.last_received = data;
    }

    /// A copy of the bytes currently held; the store itself is left as it is.
    pub fn get_last_received(&self) -> (bytes: Vec<u8>)
        ensures
            bytes@ == self@,
    {
        self.last_received.clone()
    }
}

} // verus!
