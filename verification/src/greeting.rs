//! The greeting command: the one synchronous request the front end can make.
//! It formats a fixed template around the caller's name, has no state and no
//! side effects, and cannot fail.

use vstd::prelude::*;

verus! {

/// The fixed text that stands before the name in every greeting.
pub open spec fn greeting_prefix() -> Seq<char> {
    "Hello, "@
}

/// The fixed text that stands after the name in every greeting.
pub open spec fn greeting_suffix() -> Seq<char> {
    "! You've been greeted from Rust!"@
}

/// The whole greeting for a name: the prefix, then the name itself, then the
/// suffix, and nothing else.
pub open spec fn greeting(name: Seq<char>) -> Seq<char> {
    greeting_prefix() + name + greeting_suffix()
}

/// Answers the front end's greeting request with the fixed template wrapped
/// around `name`, exactly once.
pub fn greet(name: &str) -> (r: String)
    ensures
        r@ == greeting(name@),
{
    let mut out = String::from_str("Hello, ");
    out.append(name);
    out.append("! You've been greeted from Rust!");
    out
}

/// Law: every greeting of a non-empty name contains that name as a contiguous
/// substring, at the one place the template leaves for it, with one copy of
/// the fixed prefix before it and one copy of the fixed suffix after it.
pub proof fn lemma_greeting_contains_name(name: Seq<char>)
    requires
        name.len() > 0,
    ensures
        greeting(name).len() == greeting_prefix().len() + name.len() + greeting_suffix().len(),
        greeting(name).subrange(
            greeting_prefix().len() as int,
            greeting_prefix().len() + name.len() as int,
        ) == name,
        greeting(name).subrange(0, greeting_prefix().len() as int) == greeting_prefix(),
        greeting(name).subrange(
            greeting_prefix().len() + name.len() as int,
            greeting(name).len() as int,
        ) == greeting_suffix(),
{
    assert(greeting(name).subrange(
        greeting_prefix().len() as int,
        greeting_prefix().len() + name.len() as int,
    ) =~= name);
    assert(greeting(name).subrange(0, greeting_prefix().len() as int) =~= greeting_prefix());
    assert(greeting(name).subrange(
        greeting_prefix().len() + name.len() as int,
        greeting(name).len() as int,
    ) =~= greeting_suffix());
}

} // verus!
