use vstd::prelude::*;

verus! {

/// The kind of failure an import step reports.
#[derive(Debug, Clone, Copy, PartialEq, Eq, Structural)]
pub enum ImportErrorType {
    /// A file the document refers to is missing.
    FileNotFound,
    /// Text that a caller could not decode. The library itself reports
    /// text that is not JSON as `Format`.
    StringParseError,
    /// Another failure of the surrounding I/O.
    Other,
    /// The text is not JSON, or breaks the glTF format: a missing required
    /// field, an out-of-range reference, an unknown enumerated code.
    Format,
    /// The document asks for something this library does not support.
    Unsupported,
}

/// A failure of some import step, with a message naming what failed.
#[derive(Debug)]
pub struct ImportError {
    pub e_type: ImportErrorType,
    pub message: String,
    /// The position of the entity that failed, within its collection.
    pub index: Option<u64>,
    /// The unrecognized code of an enumerated field.
    pub code: Option<u64>,
}

impl ImportError {
    pub fn new(e_type: ImportErrorType, message: &str) -> (r: Self)
        ensures
            r.e_type == e_type,
            r.message@ == message@,
            r.index is None,
            r.code is None,
    {
        ImportError { e_type, message: message.to_owned(), index: None, code: None }
    }

    /// A format error naming `field`.
    pub fn format(field: &str) -> (r: Self)
        ensures
            r.e_type == ImportErrorType::Format,
            r.message@ == field@,
            r.index is None,
            r.code is None,
    {
        ImportError::new(ImportErrorType::Format, field)
    }

    /// An unsupported-feature error naming `feature`.
    pub fn unsupported(feature: &str) -> (r: Self)
        ensures
            r.e_type == ImportErrorType::Unsupported,
            r.message@ == feature@,
            r.index is None,
            r.code is None,
    {
        ImportError::new(ImportErrorType::Unsupported, feature)
    }
}

} // verus!
