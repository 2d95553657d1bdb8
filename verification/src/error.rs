//! The failures this crate reports.

use vstd::prelude::*;
use vstd::string::StringExecFns;

use crate::image::ImageKindVariants;

verus! {

/// Why an operation of this crate did not go through. An error that a backend
/// returns reaches the caller as the backend made it.
#[derive(Debug)]
pub enum Error {
    /// The named operation was asked of an image whose kind it does not support.
    UnsupportedImageKind(&'static str, ImageKindVariants),
    /// The backend cannot be upgraded to one that handles images.
    ImageBackendUnavailable,
    /// The backend failed to allocate or to carry out an operation; the text is its own.
    BackendFailure(String),
}

impl Error {
    /// The text of the message for this error.
    pub open spec fn message_text(self) -> Seq<char> {
        match self {
            Error::UnsupportedImageKind(operation, kind) => "Operation ("@ + operation@
                + ") does not support given image kind "@ + kind.name_text(),
            Error::ImageBackendUnavailable => "Backend does not support image operations"@,
            Error::BackendFailure(reason) => "Backend failure: "@ + reason@,
        }
    }

    /// Renders the error for a reader.
    pub fn message(&self) -> (text: String)
        ensures
            text@ == self.message_text(),
    {
        match self {
            Error::UnsupportedImageKind(operation, kind) => {
                let mut text = String::from_str("Operation (");
                text.append(operation);
                text.append(") does not support given image kind ");
                text.append(kind.name());
                text
            },
            Error::ImageBackendUnavailable => String::from_str(
                "Backend does not support image operations",
            ),
            Error::BackendFailure(reason) => {
                let mut text = String::from_str("Backend failure: ");
                text.append(reason.as_str());
                text
            },
        }
    }
}

} // verus!
