//! The two greetings with which the user interface checks that the backend
//! answers.

use crate::text;
use vstd::prelude::*;

verus! {

pub const GREETING_HEAD: &'static str = "Hello, ";

pub const GREETING_TAIL: &'static str = "! You've been greeted from Rust!";

pub const HELLO_MESSAGE: &'static str = "Hi there! This is a message from Rust 🎯";

/// The answer to `hello`.
#[derive(Debug, Clone, PartialEq, Eq)]
pub struct HelloResponse {
    pub msg: String,
}

impl View for HelloResponse {
    type V = Seq<char>;

    open spec fn view(&self) -> Seq<char> {
        self.msg@
    }
}

/// Greets by name.
pub fn greet(name: &str) -> (r: String)
    ensures
        r@ == GREETING_HEAD@ + name@ + GREETING_TAIL@,
{
    let mut out = text::join(GREETING_HEAD, name);
    out.append(GREETING_TAIL);
    out
}

/// The fixed greeting.
pub fn hello() -> (r: HelloResponse)
    ensures
        r@ == HELLO_MESSAGE@,
{
    HelloResponse { msg: text::owned(HELLO_MESSAGE) }
}

} // verus!
