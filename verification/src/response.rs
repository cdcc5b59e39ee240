use vstd::prelude::*;

verus! {

/// The payload of a code verification: whether the supplied code matched.
#[derive(Debug, Clone, Copy, PartialEq, Eq, Structural)]
pub struct JsonVal {
    pub success: bool,
}

/// A list of results returned together.
#[derive(Debug)]
pub struct Response<T> {
    pub results: Vec<T>,
}

} // verus!
