//! Generation-time errors. Each aborts synthesis for the one offending
//! function; generation is deterministic, so none is worth retrying.

use vstd::prelude::*;

verus! {

/// Why synthesizing a binding failed.
#[derive(Clone, Copy, Debug, PartialEq, Eq, Structural)]
pub enum GenError {
    /// The annotated declaration is not a function.
    UnsupportedInputShape,
    /// A parameter is a method receiver; receiver calling conventions are
    /// not representable by the exported entry-point shape.
    UnsupportedSelfParameter,
    /// An option entry could not be interpreted: unknown key, or a value
    /// that is not a string literal.
    MalformedOptions,
    /// Two distinct requests mangle to the same exported symbol name.
    NamingCollision,
}

} // verus!
