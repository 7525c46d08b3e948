//! The unique-id actor: a task that answers each request with the next id
//! of a counter. The channels that carry requests and replies belong to the
//! runtime; the actor's decision is here.

use vstd::prelude::*;

verus! {

/// A request to the actor. Its reply channel travels beside it.
#[derive(Debug, Clone, Copy, PartialEq, Eq, Structural)]
pub enum MyActorMessage {
    GetUniqueId,
}

/// The actor's state: the last id it handed out.
#[derive(Debug, Clone, Copy, PartialEq, Eq, Structural)]
pub struct MyActor {
    pub next_id: usize,
}

impl MyActor {
    /// An actor that has handed out no id.
    pub fn new() -> (r: Self)
        ensures
            r.next_id == 0,
    {
        MyActor { next_id: 0 }
    }

    /// Answers a request: counts one more and replies with the count, so the
    /// ids handed out are 1, 2, 3, ... The count is a `usize`, raised with
    /// `+=`, which overflows past `usize::MAX`.
    pub fn handle_message(&mut self, message: MyActorMessage) -> (reply: usize)
        requires
            old(self).next_id < usize::MAX,
        ensures
            reply == old(self).next_id + 1,
            final(self).next_id == reply,
    {
        match message {
            MyActorMessage::GetUniqueId => {
                self.next_id += 1;
                self.next_id
            },
        }
    }
}

} // verus!
