use vstd::prelude::*;
use crate::envelope::{Response, envelope};
use crate::status::{Code, code_value};

verus! {

/// The largest structured body, in bytes, that a handler accepts.
pub const BODY_LIMIT: usize = 4096;

/// Why a structured request body could not be read.
#[derive(Debug)]
pub enum PayloadFailure {
    /// The body is larger than the limit.
    Overflow,
    /// The body's media type is not accepted.
    ContentType,
    /// The body is not a well-formed structured value; the parser's message.
    Deserialize(String),
    /// The body could not be received; the transport's message.
    Payload(String),
}

impl PayloadFailure {
    /// The status code that answers this failure.
    pub open spec fn spec_code(&self) -> Code {
        match self {
            PayloadFailure::Overflow => Code::PayloadToLarge,
            PayloadFailure::ContentType => Code::UnsupportedMediaType,
            PayloadFailure::Deserialize(_) => Code::BadRequest,
            PayloadFailure::Payload(_) => Code::BadRequest,
        }
    }

    /// The message that explains this failure.
    pub open spec fn spec_message(&self) -> Seq<char> {
        match self {
            PayloadFailure::Overflow => "Body too large"@,
            PayloadFailure::ContentType => "Invalid content Type"@,
            PayloadFailure::Deserialize(m) => m@,
            PayloadFailure::Payload(m) => m@,
        }
    }

    /// The failure response that answers this failure.
    pub fn to_response(&self) -> (r: Response)
        ensures
            r.spec_code() == code_value(self.spec_code()),
            r.spec_body() == envelope(self.spec_message()),
    {
        match self {
            PayloadFailure::Overflow => Response::failure(Code::PayloadToLarge, "Body too large"),
            PayloadFailure::ContentType => Response::failure(
                Code::UnsupportedMediaType,
                "Invalid content Type",
            ),
            PayloadFailure::Deserialize(m) => Response::failure(Code::BadRequest, m.as_str()),
            PayloadFailure::Payload(m) => Response::failure(Code::BadRequest, m.as_str()),
        }
    }
}

} // verus!
