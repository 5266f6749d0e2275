use vstd::prelude::*;
use vstd::string::*;

verus! {

/// The text that `greet` answers for `name`.
pub open spec fn greeting_text(name: Seq<char>) -> Seq<char> {
    "Hello, "@ + name + "! You've been greeted from Rust!"@
}

/// Answers the front end's greeting request. It reads nothing but `name`
/// and changes nothing.
pub fn greet(name: &str) -> (r: String)
    ensures
        r@ == greeting_text(name@),
{
    let mut r = String::from_str("Hello, ");
    r.append(name);
    r.append("! You've been greeted from Rust!");
    r
}


/// `greet` depends on its argument alone: two calls with the same name give
/// the same text.
pub proof fn greet_is_deterministic(name: Seq<char>, first: Seq<char>, second: Seq<char>)
    requires
        first == greeting_text(name),
        second == greeting_text(name),
    ensures
        first == second,
{
}

} // verus!
