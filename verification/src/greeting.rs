//! The greeting: a fixed salutation for an empty name, and one that carries
//! the name verbatim otherwise.

use vstd::prelude::*;
use vstd::string::StringExecFns;
use vstd::utf8::encode_utf8;

verus! {

/// The text of the greeting for `name`.
///
/// An empty name gives a fixed sentence that names nobody. Any other name is
/// placed as it is, character for character, between a fixed prefix and a
/// fixed suffix.
pub open spec fn greeting_text(name: Seq<char>) -> Seq<char> {
    if name.len() == 0 {
        "Hello from the Rust library!"@
    } else {
        "Hello, "@ + name + "! (from Rust library)"@
    }
}

/// Greets `name`. Total: every string is accepted and passes through untouched.
pub fn get_greeting(name: &str) -> (greeting: String)
    ensures
        greeting@ == greeting_text(name@),
{
    if name.is_empty() {
        "Hello from the Rust library!".to_string()
    } else {
        let mut greeting = "Hello, ".to_string();
        greeting.append(name);
        greeting.append("! (from Rust library)");
        greeting
    }
}

/// Greeting is a function of the name alone: the same name always gives the
/// same text, and with it the same bytes.
pub proof fn lemma_greeting_deterministic(first: Seq<char>, second: Seq<char>)
    requires
        first == second,
    ensures
        greeting_text(first) == greeting_text(second),
        encode_utf8(greeting_text(first)) == encode_utf8(greeting_text(second)),
{
}

/// A greeting for a name that is not empty holds the name untouched, right
/// after the prefix, and is as much longer than the name as the prefix and
/// the suffix are long.
pub proof fn lemma_greeting_holds_name(name: Seq<char>)
    requires
        name.len() > 0,
    ensures
        greeting_text(name).len() == name.len() + 28,
        greeting_text(name).subrange(7, 7 + name.len() as int) == name,
{
    reveal_strlit("Hello, ");
    reveal_strlit("! (from Rust library)");
}

/// Different names are greeted differently: the name can be read back from
/// the greeting.
pub proof fn lemma_greeting_injective(first: Seq<char>, second: Seq<char>)
    requires
        greeting_text(first) == greeting_text(second),
    ensures
        first == second,
{
    reveal_strlit("Hello from the Rust library!");
    reveal_strlit("Hello, ");
    reveal_strlit("! (from Rust library)");
    if first.len() == 0 && second.len() == 0 {
        // Both names are empty.
    } else if first.len() == 0 {
        // The fixed sentence goes on with a space where every other
        // greeting has its comma.
        assert(greeting_text(first)[5] == ' ');
        assert(greeting_text(second)[5] == ',');
    } else if second.len() == 0 {
        assert(greeting_text(second)[5] == ' ');
        assert(greeting_text(first)[5] == ',');
    } else {
        lemma_greeting_holds_name(first);
        lemma_greeting_holds_name(second);
    }
}

} // verus!
