//! The reply to an inbound message, chosen by keywords in its lower-cased text.

use vstd::prelude::*;
use vstd::string::StringExecFns;
use crate::text::{chars_of, contains_chars, contains_seq};

verus! {

/// Reply to a message that says hello.
pub const HELLO_ECHO: &'static str = "Hello there! 👋 Rust says hi back!";

/// Reply to a message that names the desktop framework.
pub const FRAMEWORK_ECHO: &'static str = "Tauri is awesome for desktop apps! 🚀";

/// Reply to a message that names the backend language.
pub const LANGUAGE_ECHO: &'static str = "Rust is blazingly fast and memory safe! 🦀";

/// Reply to a message that asks for help.
pub const HELP_ECHO: &'static str = "I'm here to help! Try asking about Rust or Tauri!";

/// Text placed before a message that matched no keyword.
pub const RECEIVED_PREFIX: &'static str = "I received: '";

/// Text placed after a message that matched no keyword.
pub const RECEIVED_SUFFIX: &'static str = "' - Thanks for the message!";

/// What `str::to_lowercase` makes of a text.
pub uninterp spec fn lower_of(s: Seq<char>) -> Seq<char>;

/// Relies on `str::to_lowercase`: its result depends on the characters alone.
#[verifier::external_body]
fn lowercase(s: &str) -> (r: String)
    ensures
        r@ == lower_of(s@),
{
    s.to_lowercase()
}

/// The reply to `message`, whose lower-cased form is `lowered`: the first
/// keyword found, in a fixed order, picks a canned reply; with none found the
/// message is quoted back.
pub open spec fn echo_text(lowered: Seq<char>, message: Seq<char>) -> Seq<char> {
    if contains_seq(lowered, "hello"@) {
        HELLO_ECHO@
    } else if contains_seq(lowered, "tauri"@) {
        FRAMEWORK_ECHO@
    } else if contains_seq(lowered, "rust"@) {
        LANGUAGE_ECHO@
    } else if contains_seq(lowered, "help"@) {
        HELP_ECHO@
    } else {
        RECEIVED_PREFIX@ + message + RECEIVED_SUFFIX@
    }
}

/// Whether the keyword `word` occurs in the characters `hay`.
fn mentions(hay: &Vec<char>, word: &str) -> (r: bool)
    ensures
        r == contains_seq(hay@, word@),
{
    let needle = chars_of(word);
    contains_chars(hay, &needle)
}

/// The reply to `message`, given its lower-cased form `lowered`.
pub fn echo_for(lowered: &str, message: &str) -> (r: String)
    ensures
        r@ == echo_text(lowered@, message@),
{
    let hay = chars_of(lowered);
    if mentions(&hay, "hello") {
        String::from_str(HELLO_ECHO)
    } else if mentions(&hay, "tauri") {
        String::from_str(FRAMEWORK_ECHO)
    } else if mentions(&hay, "rust") {
        String::from_str(LANGUAGE_ECHO)
    } else if mentions(&hay, "help") {
        String::from_str(HELP_ECHO)
    } else {
        String::from_str(RECEIVED_PREFIX).concat(message).concat(RECEIVED_SUFFIX)
    }
}

/// The reply to `message`; keywords are matched without regard to case.
pub fn reply_to(message: &str) -> (r: String)
    ensures
        r@ == echo_text(lower_of(message@), message@),
{
    let lowered = lowercase(message);
    echo_for(lowered.as_str(), message)
}

} // verus!
