use vstd::prelude::*;

verus! {

/// The closed set of status codes that the dispatch layer can answer with.
#[derive(Clone, Copy, Debug, PartialEq, Eq, Structural)]
pub enum Code {
    OK,
    Created,
    Accepted,
    NoContent,
    /// More of the resource has to be sent in another response.
    PartialContent,
    BadRequest,
    /// The caller is not authenticated.
    Unauthorized,
    /// The caller is authenticated but lacks the permission.
    Forbidden,
    NotFound,
    MethodNotAllowed,
    /// The accepted content of the request cannot be produced.
    NotAcceptable,
    TimeOut,
    /// The resource already exists.
    Conflict,
    LengthRequired,
    PayloadToLarge,
    UnsupportedMediaType,
    /// The requested range starts after the end of the resource.
    RangeNotSatisfiable,
    InternalServerError,
}

/// The numeric wire code of each entry of the vocabulary.
pub open spec fn code_value(c: Code) -> u16 {
    match c {
        Code::OK => 200,
        Code::Created => 201,
        Code::Accepted => 202,
        Code::NoContent => 204,
        Code::PartialContent => 206,
        Code::BadRequest => 400,
        Code::Unauthorized => 401,
        Code::Forbidden => 403,
        Code::NotFound => 404,
        Code::MethodNotAllowed => 405,
        Code::NotAcceptable => 406,
        Code::TimeOut => 408,
        Code::Conflict => 409,
        Code::LengthRequired => 411,
        Code::PayloadToLarge => 413,
        Code::UnsupportedMediaType => 415,
        Code::RangeNotSatisfiable => 416,
        Code::InternalServerError => 500,
    }
}

impl Code {
    /// The numeric wire code of this entry.
    pub fn as_u16(&self) -> (r: u16)
        ensures
            r == code_value(*self),
    {
        match self {
            Code::OK => 200,
            Code::Created => 201,
            Code::Accepted => 202,
            Code::NoContent => 204,
            Code::PartialContent => 206,
            Code::BadRequest => 400,
            Code::Unauthorized => 401,
            Code::Forbidden => 403,
            Code::NotFound => 404,
            Code::MethodNotAllowed => 405,
            Code::NotAcceptable => 406,
            Code::TimeOut => 408,
            Code::Conflict => 409,
            Code::LengthRequired => 411,
            Code::PayloadToLarge => 413,
            Code::UnsupportedMediaType => 415,
            Code::RangeNotSatisfiable => 416,
            Code::InternalServerError => 500,
        }
    }
}

} // verus!
