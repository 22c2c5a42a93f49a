use vstd::prelude::*;

verus! {

/// `ioe::IoError`, the serialisable wrapper of an I/O failure, carried through as it is.
#[verifier::external_type_specification]
#[verifier::external_body]
pub struct ExIoError(ioe::IoError);

/// Why a rendering failed.
#[derive(Debug, PartialEq, Eq)]
pub enum StringifyError {
    /// The output sink refused a write.
    IoError(ioe::IoError),
    /// A renderer asked for a role that the style table does not bind.
    StyleNotFound { name: &'static str },
}

/// The outcome of a rendering.
pub type StringifyResult<T> = Result<T, StringifyError>;

} // verus!
