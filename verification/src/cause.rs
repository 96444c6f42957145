//! Failures that reach the library from outside it.

use vstd::prelude::*;

verus! {

/// A failure raised outside the library, kept as what it says: its own
/// message, then the message of each failure beneath it, from the nearest
/// source to the innermost.
#[derive(Clone, Debug, PartialEq, Eq)]
pub struct Cause {
    /// How the failure itself reads.
    pub message: String,
    /// How the failures that led to it read, nearest first.
    pub sources: Vec<String>,
}

/// The messages of a failure and of everything beneath it, outermost first.
pub open spec fn cause_chain(cause: Cause) -> Seq<Seq<char>> {
    seq![cause.message@] + cause.sources.deep_view()
}

/// Copies a list of texts.
pub fn clone_texts(texts: &Vec<String>) -> (copy: Vec<String>)
    ensures
        copy.deep_view() == texts.deep_view(),
{
    let mut copy: Vec<String> = Vec::new();
    let mut i: usize = 0;
    while i < texts.len()
        invariant
            i <= texts.len(),
            copy.len() == i,
            forall|j: int| 0 <= j < i ==> copy[j]@ == texts[j]@,
        decreases texts.len() - i,
    {
        copy.push(texts[i].clone());
        i = i + 1;
    }
    assert(copy.deep_view() =~= texts.deep_view());
    copy
}

impl Cause {
    /// A failure that reads as `message` and has nothing beneath it.
    pub fn new(message: &str) -> (cause: Cause)
        ensures
            cause.message@ == message@,
            cause.sources@.len() == 0,
            cause_chain(cause) == seq![message@],
    {
        let cause = Cause { message: String::from_str(message), sources: Vec::new() };
        assert(cause_chain(cause) =~= seq![message@]);
        cause
    }

    /// The messages of this failure and of everything beneath it.
    pub fn chain(&self) -> (messages: Vec<String>)
        ensures
            messages.deep_view() == cause_chain(*self),
    {
        let mut messages: Vec<String> = Vec::new();
        messages.push(self.message.clone());
        let mut i: usize = 0;
        while i < self.sources.len()
            invariant
                i <= self.sources.len(),
                messages.len() == i + 1,
                messages[0]@ == self.message@,
                forall|j: int| 0 <= j < i ==> messages[j + 1]@ == self.sources[j]@,
            decreases self.sources.len() - i,
        {
            messages.push(self.sources[i].clone());
            i = i + 1;
        }
        assert(messages.deep_view() =~= cause_chain(*self));
        messages
    }
}

} // verus!
