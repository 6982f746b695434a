//! The command surface: one pure operation callable from the presentation
//! layer, mapping a name to a fixed greeting string.

use vstd::prelude::*;
use vstd::string::StringExecFns;

verus! {

/// The greeting text for a given name: the fixed prefix, the name itself,
/// then the fixed suffix.
pub open spec fn greeting_text(name: Seq<char>) -> Seq<char> {
    "Hello, "@ + name + "! Welcome to TARS."@
}

/// Build the greeting for `name`. Pure: the result is a function of the
/// name alone, and every name is accepted, the empty one included.
pub fn greet(name: &str) -> (r: String)
    ensures
        r@ == greeting_text(name@),
{
    let mut r = String::from_str("Hello, ");
    r.append(name);
    r.append("! Welcome to TARS.");
    r
}

/// The greeting is deterministic: equal names give equal greeting text, so
/// two calls of `greet` on the same input return the same string.
pub proof fn lemma_greet_deterministic(a: Seq<char>, b: Seq<char>)
    requires
        a == b,
    ensures
        greeting_text(a) == greeting_text(b),
{
}

} // verus!
