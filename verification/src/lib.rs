//! A minimal dense-matrix library: a capability contract describing what a
//! matrix implementation must provide, and one concrete engine backed by
//! row-major storage, generic over a verified scalar type.

use vstd::prelude::*;

pub mod basic;
pub mod element;
pub mod matrix_trait;

verus! {

use crate::basic::BasicMatrix;
use crate::element::Element;
use crate::matrix_trait::MatrixTrait;

/// Entry point for selecting a matrix backend.
pub struct Matrixnum;

/// The backends a caller can ask for. Only the dense engine exists; the
/// other tag names an engine that was never built.
#[derive(Debug, Clone, Copy, PartialEq, Eq, Structural)]
pub enum Backend {
    /// The dense row-major engine.
    Basic,
    /// An n-dimensional-array engine with no implementation behind it.
    Ndarray,
}

/// Failure of backend selection: asking for a tag with no engine is a
/// configuration error, surfaced rather than silently falling back to the
/// default.
#[derive(Debug, Clone, Copy, PartialEq, Eq, Structural)]
pub enum ConfigError {
    /// The requested backend has no engine behind it.
    UnsupportedBackend,
}

impl Matrixnum {
    /// Instantiates the requested backend: for the dense tag, the dense
    /// engine's empty matrix, ready for the contract's constructors; for
    /// any tag without an engine, a configuration error.
    pub fn new<T: Element>(backend: Backend) -> (r: Result<BasicMatrix<T>, ConfigError>)
        ensures
            backend is Basic ==> (r matches Ok(m) && m.cells().len() == 0),
            !(backend is Basic) ==> r == Err::<BasicMatrix<T>, ConfigError>(
                ConfigError::UnsupportedBackend,
            ),
    {
        match backend {
            Backend::Basic => Ok(BasicMatrix::zero(0, 0)),
            Backend::Ndarray => Err(ConfigError::UnsupportedBackend),
        }
    }
}

} // verus!
