//! The board state store: the in-memory mapping from source-message
//! identifier to the handle of its mirrored board post. It is the single
//! source of truth for "is this message currently on the board", and is
//! mutated only by the reconciler.

use std::collections::HashMap;
use vstd::prelude::*;

use crate::model::BoardHandle;

verus! {

broadcast use vstd::std_specs::hash::group_hash_axioms;

/// The tracked associations between source messages and their board posts.
/// At most one entry per source-message identifier at any time, which the
/// mapping enforces by construction.
pub struct BoardState {
    entries: HashMap<u64, BoardHandle>,
}

impl View for BoardState {
    type V = Map<u64, BoardHandle>;

    closed spec fn view(&self) -> Map<u64, BoardHandle> {
        self.entries@
    }
}

impl BoardState {
    /// A store with no entries, as a freshly started process has: nothing is
    /// tracked across restarts.
    pub fn new() -> (s: BoardState)
        ensures
            s@ == Map::<u64, BoardHandle>::empty(),
    {
        BoardState { entries: HashMap::new() }
    }

    /// The handle of the board post mirroring `message_id`, if one is tracked.
    pub fn lookup(&self, message_id: u64) -> (r: Option<BoardHandle>)
        ensures
            match r {
                Some(h) => self@.contains_key(message_id) && h == self@[message_id],
                None => !self@.contains_key(message_id),
            },
    {
        match self.entries.get(&message_id) {
            Some(h) => Some(*h),
            None => None,
        }
    }

    /// Record that `message_id` is now mirrored by the board post `handle`.
    pub fn record(&mut self, message_id: u64, handle: BoardHandle)
        ensures
            final(self)@ == old(self)@.insert(message_id, handle),
    {
        self.entries.insert(message_id, handle);
    }

    /// Drop the entry for `message_id`, handing back the handle it held so
    /// the caller can delete the board post; `None` if nothing was tracked.
    pub fn withdraw(&mut self, message_id: u64) -> (r: Option<BoardHandle>)
        ensures
            final(self)@ == old(self)@.remove(message_id),
            match r {
                Some(h) => old(self)@.contains_key(message_id) && h == old(self)@[message_id],
                None => !old(self)@.contains_key(message_id),
            },
    {
        self.entries.remove(&message_id)
    }

    /// How many source messages are currently mirrored.
    pub fn entry_count(&self) -> (n: usize)
        ensures
            n == self@.len(),
    {
        self.entries.len()
    }
}

} // verus!
