//! A small command-line tool core: greeting, version display, logging levels
//! and the dispatch plan of one invocation, each with a verified contract.

use vstd::prelude::*;
use vstd::string::StringExecFns;
use vstd::utf8::is_ascii_chars_encode_utf8;

pub mod cli;
pub mod dispatch;
pub mod errors;
pub mod logging;
pub mod text;
pub mod update;
pub mod version;

verus! {

/// The greeting for `name`: the name between `"Hello, "` and `"!"`, unchanged.
pub open spec fn greeting(name: Seq<char>) -> Seq<char> {
    "Hello, "@ + name + "!"@
}

/// The shape of every greeting: it opens with `"Hello, "`, holds the name
/// right after that, closes with `"!"`, and is as long as the three parts
/// together, counted in characters and counted in UTF-8 bytes.
pub proof fn lemma_greeting_shape(name: Seq<char>)
    ensures
        greeting(name).len() == 7 + name.len() + 1,
        "Hello, "@.is_prefix_of(greeting(name)),
        "!"@.is_suffix_of(greeting(name)),
        text::occurs_at(name, greeting(name), 7),
        text::occurs_in(name, greeting(name)),
        text::utf8_len(greeting(name)) == 7 + text::utf8_len(name) + 1,
{
    reveal_strlit("Hello, ");
    reveal_strlit("!");
    let hello = "Hello, "@;
    let bang = "!"@;
    assert(greeting(name).subrange(0, 7) =~= hello);
    assert(greeting(name).subrange(7, 7int + name.len()) =~= name);
    assert(text::occurs_at(name, greeting(name), 7));
    assert(greeting(name).subrange(greeting(name).len() - 1, greeting(name).len() as int) =~= bang);
    text::lemma_utf8_len_concat(hello + name, bang);
    text::lemma_utf8_len_concat(hello, name);
    is_ascii_chars_encode_utf8(hello);
    is_ascii_chars_encode_utf8(bang);
}

/// Returns a greeting message for `name`.
///
/// The name is taken verbatim: nothing is trimmed, checked or cut.
#[must_use]
pub fn greet(name: &str) -> (message: String)
    ensures
        message@ == greeting(name@),
        message@.len() == 7 + name@.len() + 1,
        "Hello, "@.is_prefix_of(message@),
        "!"@.is_suffix_of(message@),
        text::occurs_at(name@, message@, 7),
        text::occurs_in(name@, message@),
        text::utf8_len(message@) == 7 + text::utf8_len(name@) + 1,
{
    let mut message = String::from_str("Hello, ");
    message.append(name);
    message.append("!");
    proof {
        lemma_greeting_shape(name@);
    }
    message
}

} // verus!
