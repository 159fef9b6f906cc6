use vstd::prelude::*;

verus! {

/// Returns the fixed greeting.
pub fn greet() -> (r: String)
    ensures
        r@ == "Hello from Rust!"@,
{
    "Hello from Rust!".to_owned()
}

} // verus!
