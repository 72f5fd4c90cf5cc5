//! The error taxonomy of the engine.

use vstd::prelude::*;

verus! {

/// One field-level issue inside a provider error envelope.
#[derive(Clone, Debug, PartialEq, Eq)]
pub struct ValidationErrorDetail {
    /// The field that caused the issue, as a JSON pointer.
    pub field: Option<String>,
    /// The unique, fine-grained application-level error code.
    pub issue: String,
    /// A human-readable description of the issue.
    pub description: Option<String>,
}

/// The structured error envelope that the provider sends with every
/// non-success status.
#[derive(Clone, Debug, PartialEq, Eq)]
pub struct ValidationError {
    /// The error name.
    pub name: String,
    /// The human message.
    pub message: String,
    /// The field-level issues, where the provider reports any.
    pub details: Option<Vec<ValidationErrorDetail>>,
    /// The identifier under which the provider logged the failure.
    pub debug_id: Option<String>,
}

/// Everything that can go wrong between a call on the client and its typed
/// result.
#[derive(Clone, Debug, PartialEq, Eq)]
pub enum PayPalError {
    /// The request never produced a response: a network or connection
    /// failure, with the transport's description of it.
    Transport(String),
    /// The provider answered with a non-success status and this envelope.
    Api(ValidationError),
    /// A response body could not be read as the shape that was expected,
    /// with the decoder's description of the failure.
    Decoding(String),
    /// The client was configured or used with something it cannot encode:
    /// an invalid base URL, credentials or parameters that cannot be
    /// serialised.
    LibraryError(String),
}

impl PayPalError {
    /// True for the variant that carries a provider envelope.
    pub fn is_api(&self) -> (r: bool)
        ensures
            r == (self is Api),
    {
        match self {
            PayPalError::Api(_) => true,
            _ => false,
        }
    }

    /// True for the variant that reports an undecodable body.
    pub fn is_decoding(&self) -> (r: bool)
        ensures
            r == (self is Decoding),
    {
        match self {
            PayPalError::Decoding(_) => true,
            _ => false,
        }
    }

    /// The text that describes this error: the carried message, or for an
    /// API error the envelope's name, a colon, a space and its message.
    pub open spec fn description(self) -> Seq<char> {
        match self {
            PayPalError::Transport(m) => m@,
            PayPalError::Api(e) => e.name@ + ": "@ + e.message@,
            PayPalError::Decoding(m) => m@,
            PayPalError::LibraryError(m) => m@,
        }
    }

    /// Renders the error as text.
    pub fn to_string(&self) -> (r: String)
        ensures
            r@ == self.description(),
    {
        match self {
            PayPalError::Transport(m) => m.clone(),
            PayPalError::Api(e) => {
                let mut out = e.name.clone();
                out.append(": ");
                out.append(e.message.as_str());
                out
            },
            PayPalError::Decoding(m) => m.clone(),
            PayPalError::LibraryError(m) => m.clone(),
        }
    }
}

} // verus!
