//! The error of the native side's own lookups.

use vstd::prelude::*;

verus! {

/// A lookup on the native side found nothing under the key it was given.
///
/// The view is the message, which says what was looked for.
#[derive(Debug)]
pub struct NotFoundError(String);

impl View for NotFoundError {
    type V = Seq<char>;

    closed spec fn view(&self) -> Seq<char> {
        self.0@
    }
}

impl NotFoundError {
    /// An error with the given message.
    pub fn new(message: &str) -> (e: NotFoundError)
        ensures
            e@ == message@,
    {
        NotFoundError(message.to_owned())
    }

    /// The message.
    pub fn message(&self) -> (m: &str)
        ensures
            m@ == self@,
    {
        self.0.as_str()
    }

    /// The message, as an owned string.
    pub fn to_string(&self) -> (s: String)
        ensures
            s@ == self@,
    {
        self.0.clone()
    }
}

} // verus!
