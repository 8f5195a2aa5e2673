use vstd::prelude::*;
use vstd::string::*;
use vstd::utf8::encode_utf8;
use crate::status::{Code, code_value};

verus! {

/// The single-field JSON object `{"error":"<message>"}`, the message verbatim.
pub open spec fn envelope(msg: Seq<char>) -> Seq<char> {
    "{\"error\":\""@ + msg + "\"}"@
}

/// The body of every failure response: one error message.
#[derive(Debug)]
pub struct ErrorMsg {
    error: String,
}

impl ErrorMsg {
    /// The message that this envelope carries.
    pub closed spec fn spec_error(&self) -> Seq<char> {
        self.error@
    }

    /// An envelope that carries `msg`.
    pub fn new(msg: &str) -> (r: Self)
        ensures
            r.spec_error() == msg@,
    {
        ErrorMsg { error: msg.to_owned() }
    }

    /// The message that this envelope carries.
    pub fn error(&self) -> (r: &str)
        ensures
            r@ == self.spec_error(),
    {
        self.error.as_str()
    }

    /// The envelope on the wire: `{"error":"<message>"}`.
    pub fn to_json_string(&self) -> (r: String)
        ensures
            r@ == envelope(self.spec_error()),
    {
        let mut s = String::from_str("{\"error\":\"");
        s.append(self.error.as_str());
        s.append("\"}");
        s
    }
}

/// A status code and the payload that goes with it.
#[derive(Debug)]
pub struct Response {
    code: u16,
    body: String,
}

impl Response {
    /// The numeric status code.
    pub closed spec fn spec_code(&self) -> u16 {
        self.code
    }

    /// The payload.
    pub closed spec fn spec_body(&self) -> Seq<char> {
        self.body@
    }

    /// A response with the given status and payload.
    pub fn new(code: Code, no: &str) -> (r: Self)
        ensures
            r.spec_code() == code_value(code),
            r.spec_body() == no@,
    {
        Response { code: code.as_u16(), body: no.to_owned() }
    }

    /// A failure response: the status `code` and an envelope around `msg`.
    pub fn failure(code: Code, msg: &str) -> (r: Self)
        ensures
            r.spec_code() == code_value(code),
            r.spec_body() == envelope(msg@),
    {
        let body = ErrorMsg::new(msg).to_json_string();
        Response::new(code, body.as_str())
    }

    /// The numeric status code.
    pub fn code(&self) -> (r: u16)
        ensures
            r == self.spec_code(),
    {
        self.code
    }

    /// The payload.
    pub fn body(&self) -> (r: &str)
        ensures
            r@ == self.spec_body(),
    {
        self.body.as_str()
    }

    /// The length of the payload in bytes, derived from the payload itself.
    pub fn body_len(&self) -> (r: usize)
        ensures
            r == encode_utf8(self.spec_body()).len() as usize,
    {
        self.body.as_str().len()
    }
}

} // verus!
