//! A greeting that can be read and replaced.

use vstd::prelude::*;

verus! {

/// Holds one greeting.
pub struct Contract2 {
    greeting: String,
}

impl Contract2 {
    /// The greeting as a sequence of characters.
    pub closed spec fn view(&self) -> Seq<char> {
        self.greeting@
    }

    /// Returns a copy of the stored greeting.
    pub fn get_greeting2(&self) -> (out: String)
        ensures
            out@ == self@,
    {
        self.greeting.clone()
    }

    /// Replaces the stored greeting.
    pub fn set_greeting2(&mut self, greeting: String)
        ensures
            final(self)@ == greeting@,
    {
        self.greeting = greeting;
    }
}

impl Default for Contract2 {
    /// The greeting a fresh value starts with is "Hello".
    fn default() -> (out: Self)
        ensures
            out@ == "Hello"@,
    {
        Contract2 { greeting: "Hello".to_string() }
    }
}

} // verus!
