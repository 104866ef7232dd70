use vstd::prelude::*;

verus! {

/// The generic envelope that write handlers return.
pub struct SuccessResponse {
    pub message: String,
    pub status: u16,
}

impl SuccessResponse {
    pub fn new(message: &str, status: u16) -> (r: SuccessResponse)
        ensures
            r.message@ == message@,
            r.status == status,
    {
        SuccessResponse { message: String::from_str(message), status }
    }
}

/// The body that replaces a failure that no handler caught.
pub struct ErrorEnvelope {
    pub error: String,
    pub status: u16,
}

/// Wraps the text of an uncaught failure into a 500 envelope.
pub fn error_envelope(message: &str) -> (r: ErrorEnvelope)
    ensures
        r.error@ == message@,
        r.status == 500,
{
    ErrorEnvelope { error: String::from_str(message), status: 500 }
}

} // verus!
