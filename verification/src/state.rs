//! The messages that a peer has sent and received.

use vstd::prelude::*;

verus! {

/// What a peer has sent and received, oldest first.
pub struct SharedState {
    messages: Vec<String>,
}

impl View for SharedState {
    type V = Seq<Seq<char>>;

    closed spec fn view(&self) -> Seq<Seq<char>> {
        self.messages.deep_view()
    }
}

impl SharedState {
    /// No messages yet.
    pub fn new() -> (res: SharedState)
        ensures
            res@ == Seq::<Seq<char>>::empty(),
    {
        let res = SharedState { messages: Vec::new() };
        assert(res@ =~= Seq::<Seq<char>>::empty());
        res
    }

    /// Appends a message.
    pub fn add_message(&mut self, message: String)
        ensures
            final(self)@ == old(self)@.push(message@),
    {
        self.messages.push(message);
        assert(self@ =~= old(self)@.push(message@));
    }

    /// A copy of all messages, oldest first.
    pub fn get_messages(&self) -> (res: Vec<String>)
        ensures
            res.deep_view() == self@,
    {
        let res = self.messages.clone();
        assert(res.deep_view() =~= self@);
        res
    }
}

} // verus!
