//! A small greeting library.
//!
//! [`hello`] hands out the greeting as an owned string. It builds on
//! [`message_string`], which copies any text into a string of its own.
//! Both are pure: what they return depends on their arguments alone.

use vstd::prelude::*;

verus! {

/// The characters of the greeting, spelled out one by one.
pub open spec fn greeting_text() -> Seq<char> {
    seq!['H', 'e', 'l', 'l', 'o']
}

/// Generates a String containing "Hello".
///
/// # Examples
///
/// ```
/// use hello_lib::hello;
///
/// let hello_string = hello();
/// assert_eq!(hello_string, "Hello");
/// ```
pub fn hello() -> (greeting: String)
    ensures
        greeting@ == "Hello"@,
        greeting@ == greeting_text(),
{
    proof {
        reveal_strlit("Hello");
        assert("Hello"@ =~= greeting_text());
    }
    message_string("Hello")
}

/// Generates a String from a string slice.
///
/// The result is a fresh, owned string that holds exactly the characters of
/// `message`, in the same order. Every text is accepted, the empty one too.
pub fn message_string(message: &str) -> (owned: String)
    ensures
        owned@ == message@,
{
    message.to_owned()
}

/// Copying a text again gives an equal string: whatever two calls of
/// `message_string` return for messages with the same characters, the two
/// results hold the same characters.
pub proof fn lemma_message_string_repeatable(
    first_message: &str,
    second_message: &str,
    first: String,
    second: String,
)
    requires
        first_message@ == second_message@,
        call_ensures(message_string, (first_message,), first),
        call_ensures(message_string, (second_message,), second),
    ensures
        first@ == second@,
{
}

/// Greeting again gives an equal string: whatever two calls of `hello`
/// return, the two results hold the same characters.
pub proof fn lemma_hello_repeatable(first: String, second: String)
    requires
        call_ensures(hello, (), first),
        call_ensures(hello, (), second),
    ensures
        first@ == second@,
{
}

} // verus!
