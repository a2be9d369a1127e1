//! The greeting shown to a named visitor.

use vstd::prelude::*;
use vstd::string::StringExecFns;

verus! {

/// The greeting for `name`.
pub open spec fn greeting(name: Seq<char>) -> Seq<char> {
    "Hello, "@ + name + "! You've been greeted from Rust!"@
}

/// Greets `name`, which is taken as it is: nothing is trimmed or escaped.
pub fn greet(name: &str) -> (r: String)
    ensures
        r@ == greeting(name@),
{
    let mut r = "Hello, ".to_string();
    r.append(name);
    r.append("! You've been greeted from Rust!");
    r
}

} // verus!
