use vstd::prelude::*;

use crate::tensor::ElementType;

verus! {

/// Every failure the library reports. Errors coming from the engine are handed
/// on unchanged; those raised here carry the context that was checked.
#[allow(inconsistent_fields)]
#[derive(Clone, Debug, PartialEq)]
pub enum ModelError {
    /// The model source could not be read.
    IoError,
    /// The engine did not accept the model, or the model declares no usable tensors.
    ModelParseError,
    /// None of the requested execution providers is available.
    UnsupportedProvider,
    /// A tensor's element count does not fill its shape; `expected` is the
    /// concrete shape and `actual` the number of elements supplied.
    ShapeMismatch { expected: Vec<u64>, actual: u64 },
    /// A tensor's element type differs from the one declared for it.
    TypeMismatch { expected: ElementType, actual: ElementType },
    /// The flat input handed to `predict` does not fill the model's input shape.
    InputSizeMismatch { expected: Vec<u64>, actual: u64 },
    /// A feed names no input of the model.
    UnknownInput { name: String },
    /// An input of the model has no feed.
    MissingInput { name: String },
    /// The engine's result holds no tensor under the output's name.
    OutputMissing { name: String },
    /// A run is already outstanding on this session.
    SessionBusy,
    /// The session has been disposed.
    HandleClosed,
}

} // verus!
