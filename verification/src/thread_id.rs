//! Thread identifiers.
use vstd::prelude::*;

verus! {

/// The identifier of a thread, held as the text that it is displayed as.
#[derive(Debug, PartialEq, Eq, Hash)]
pub struct ThreadId {
    pub text: String,
}

impl ThreadId {
    /// The text of the identifier.
    pub open spec fn view(&self) -> Seq<char> {
        self.text@
    }

    /// Copies the text out, as it stands in messages and notifications.
    pub fn to_text(&self) -> (text: String)
        ensures
            text@ == self@,
    {
        self.text.clone()
    }
}

impl Clone for ThreadId {
    fn clone(&self) -> (copy: Self)
        ensures
            copy == *self,
    {
        ThreadId { text: self.text.clone() }
    }
}

/// A thread id stands for its text and nothing else.
pub proof fn law_thread_ids_are_their_text(thread_id: ThreadId)
    ensures
        thread_id@ == thread_id.text@,
{
}

} // verus!
