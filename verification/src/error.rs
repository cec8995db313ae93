//! What can go wrong before a batch is started.

use vstd::prelude::*;

verus! {

/// Why a starred-list response was turned down.
#[derive(Clone, Copy, Debug, PartialEq, Eq, Structural)]
pub enum ShapeFault {
    /// The body is not one well-formed JSON document.
    Malformed,
    /// The document is well-formed but its top level is not an array.
    NotArray,
    /// The element at `index` is the first one without a `full_name` string.
    MissingName { index: usize },
}

/// The failures that end a run.
#[derive(Clone, Copy, Debug, PartialEq, Eq, Structural)]
pub enum StarError {
    /// The threshold is not a positive number.
    InvalidConfiguration,
    /// The token holds a byte that no header value may carry.
    AuthenticationFormat,
    /// The starred-list response does not have the expected shape.
    ResponseShape(ShapeFault),
}

} // verus!
