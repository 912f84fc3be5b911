use vstd::prelude::*;

verus! {

/// A single message posted to the board: one text attribute, `content`.
/// Messages have no identity and no timestamp; equality is by value, so the
/// view of a message is just its character sequence.
pub struct Message {
    content: String,
}

impl View for Message {
    type V = Seq<char>;

    closed spec fn view(&self) -> Seq<char> {
        self.content@
    }
}

impl Message {
    /// Builds a message holding `msg_content` verbatim.
    pub fn new(msg_content: &str) -> (m: Self)
        ensures
            m@ == msg_content@,
    {
        Message { content: msg_content.to_string() }
    }

    /// The message text, unchanged.
    pub fn content(&self) -> (r: &str)
        ensures
            r@ == self@,
    {
        self.content.as_str()
    }

    /// Consumes the message and hands back its text verbatim.
    pub fn into_content(self) -> (r: String)
        ensures
            r@ == self@,
    {
        self.content
    }
}

} // verus!
