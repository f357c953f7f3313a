use vstd::prelude::*;

verus! {

/// The body served at the root path.
pub const GREETING: &'static str = "Hello, World!";

/// Answers `GET /`: always the same greeting, whatever has happened before.
pub fn root() -> (r: &'static str)
    ensures
        r@ == GREETING@,
{
    GREETING
}

} // verus!
