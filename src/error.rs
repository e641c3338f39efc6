use vstd::prelude::*;

verus! {

/// The platform does not provide both ulock functions.
///
/// Carries no data; every value of it is equal to every other.
#[derive(Clone, Copy, Debug, PartialEq, Eq, Structural)]
pub struct ApiUnsupported {}

impl ApiUnsupported {
    /// The one value of the error.
    pub fn new() -> (r: ApiUnsupported)
        ensures
            r == (ApiUnsupported {}),
    {
        ApiUnsupported {}
    }

    /// A human-readable description of the error.
    pub fn message(&self) -> (r: &'static str)
        ensures
            r@ == "ulock api unsupported"@,
    {
        "ulock api unsupported"
    }
}

} // verus!
