//! The library's error taxonomy.

use vstd::prelude::*;

verus! {

/// What can go wrong while loading or rendering a template.
#[derive(Debug)]
pub enum TextkitDocxError {
    /// The data context could not be converted for a helper expression.
    BadInputData(String),
    /// The document markup lacks something the renderer needs.
    Malformed(String),
    /// The final token list could not be re-emitted as markup text.
    FailedWriteXml,
    /// A markup part could not be tokenized.
    FailedReadXml,
    /// The package could not be read or assembled.
    DocxZip(String),
}

impl TextkitDocxError {
    /// A short description of the failure.
    pub fn message(&self) -> (r: String)
        ensures
            self is Malformed ==> r@ == self->Malformed_0@,
            self is DocxZip ==> r@ == self->DocxZip_0@,
            self is BadInputData ==> r@ == self->BadInputData_0@,
    {
        match self {
            TextkitDocxError::BadInputData(m) => m.clone(),
            TextkitDocxError::Malformed(m) => m.clone(),
            TextkitDocxError::FailedWriteXml => "Failed to write XML data".to_owned(),
            TextkitDocxError::FailedReadXml => "Docx file is malformed.".to_owned(),
            TextkitDocxError::DocxZip(m) => m.clone(),
        }
    }
}

} // verus!
