//! What the user last attended to.

use crate::models::time::Timestamp;
use vstd::prelude::*;

verus! {

/// The user's preferences: the vision in focus and the last review.
#[derive(Clone, Copy, Debug)]
pub struct User {
    pub current_focus: Option<u128>,
    pub last_reviewed: Option<Timestamp>,
}

impl User {
    pub fn new() -> (user: User)
        ensures
            user.current_focus is None,
            user.last_reviewed is None,
    {
        User { current_focus: None, last_reviewed: None }
    }
}

impl Default for User {
    fn default() -> (user: User)
        ensures
            user.current_focus is None,
            user.last_reviewed is None,
    {
        User::new()
    }
}

} // verus!
