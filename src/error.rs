//! The error surface of the advisory layer.

use vstd::prelude::*;

verus! {

/// An advisory failure, carrying a free-text description of its cause.
#[derive(Clone, Debug, PartialEq)]
pub enum Error {
    AdviceError { error: String },
}

} // verus!
