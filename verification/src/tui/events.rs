//! The last key that was pressed.

use crate::tui::app::Key;
use vstd::prelude::*;

verus! {

/// Remembers the key of the latest poll, if that poll saw one.
#[derive(Debug)]
pub struct EventHandler {
    last_key_event: Option<Key>,
}

impl EventHandler {
    pub closed spec fn spec_last_key_event(&self) -> Option<Key> {
        self.last_key_event
    }

    pub fn new() -> (handler: EventHandler)
        ensures
            handler.spec_last_key_event() is None,
    {
        EventHandler { last_key_event: None }
    }

    /// Takes in what a poll saw: the key, or nothing. Tells whether there was
    /// a key.
    pub fn observe(&mut self, key: Option<Key>) -> (seen: bool)
        ensures
            final(self).spec_last_key_event() == key,
            seen == key is Some,
    {
        self.last_key_event = key;
        key.is_some()
    }

    pub fn last_key_event(&self) -> (key: Option<Key>)
        ensures
            key == self.spec_last_key_event(),
    {
        self.last_key_event
    }
}

impl Default for EventHandler {
    fn default() -> (handler: EventHandler)
        ensures
            handler.spec_last_key_event() is None,
    {
        EventHandler::new()
    }
}

} // verus!
