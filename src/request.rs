use vstd::prelude::*;
use hyper::Body;
use crate::envelope::{Response, envelope};
use crate::length::{LengthError, length_spec, parse_length};
use crate::router::{RouteError, route, route_spec, strip_leading_sep, strip_spec};
use crate::status::{Code, code_value};

verus! {

/// Declares `hyper::Body`, the body stream of a hyper request, so that a
/// descriptor can hold it. It is carried through unread: nothing is assumed of it.
#[verifier::external_type_specification]
#[verifier::external_body]
pub struct ExBody(Body);

/// An inbound request as the transport hands it over: its URI path, the value
/// of its `Content-Length` header if it has one, and its body stream.
pub struct RawRequest {
    pub path: String,
    pub content_length: Option<Vec<u8>>,
    pub body: Body,
}

/// A parsed inbound call: the method to invoke, the declared body length and
/// the body stream, present exactly when a length was declared.
#[derive(Debug)]
pub struct Request {
    pub method: String,
    body_len: u64,
    pub body: Option<Body>,
    username: Option<String>,
}

/// The bytes of an optional header value.
pub open spec fn header_view(h: Option<Vec<u8>>) -> Option<Seq<u8>> {
    match h {
        Some(v) => Some(v@),
        None => None,
    }
}

/// Assembly of a call from a URI path and an optional declared length: the
/// module, the method and the declared length, or the status code and body of
/// the failure response.
pub open spec fn descriptor_spec(path: Seq<char>, content_length: Option<Seq<u8>>) -> Result<
    (Seq<char>, Seq<char>, u64),
    (u16, Seq<char>),
> {
    match route_spec(strip_spec(path)) {
        Err(e) => Err((code_value(e.spec_code()), envelope(e.spec_message()))),
        Ok((module, method)) => match content_length {
            None => Ok((module, method, 0)),
            Some(v) => match length_spec(v) {
                Ok(n) => Ok((module, method, n)),
                Err(le) => Err(
                    (code_value(Code::InternalServerError), envelope(le.spec_message())),
                ),
            },
        },
    }
}

/// Every failure of assembly is answered by an error envelope: a routing
/// failure with its own status code and message, an unreadable declared length
/// with `InternalServerError`.
pub proof fn lemma_failure_is_envelope(path: Seq<char>, content_length: Option<Seq<u8>>)
    ensures
        descriptor_spec(path, content_length) matches Err((code, body)) ==> {
            ||| exists|e: RouteError|
                route_spec(strip_spec(path)) == Err::<(Seq<char>, Seq<char>), RouteError>(e)
                    && code == code_value(e.spec_code()) && body == envelope(
                    #[trigger] e.spec_message(),
                )
            ||| exists|le: LengthError|
                content_length matches Some(v) && length_spec(v) == Err::<u64, LengthError>(le)
                    && code == code_value(Code::InternalServerError) && body == envelope(
                    #[trigger] le.spec_message(),
                )
        },
{
    if let Err((code, body)) = descriptor_spec(path, content_length) {
        match route_spec(strip_spec(path)) {
            Err(e) => {
                assert(code == code_value(e.spec_code()));
            },
            Ok(_) => {
                let v = content_length->Some_0;
                let le = length_spec(v)->Err_0;
                assert(code == code_value(Code::InternalServerError) && body == envelope(
                    le.spec_message(),
                ));
            },
        }
    }
}

impl Request {
    /// The method to invoke.
    pub closed spec fn spec_method(&self) -> Seq<char> {
        self.method@
    }

    /// The body stream, present exactly when a length was declared.
    pub closed spec fn spec_body(&self) -> Option<Body> {
        self.body
    }

    /// The declared body length, 0 where none was declared.
    pub closed spec fn spec_body_len(&self) -> u64 {
        self.body_len
    }

    /// The identity of the caller, where one was resolved.
    pub closed spec fn spec_username(&self) -> Option<String> {
        self.username
    }

    /// What an assembly result holds, as plain values.
    pub open spec fn build_view(r: Result<(String, Request), Response>) -> Result<
        (Seq<char>, Seq<char>, u64),
        (u16, Seq<char>),
    > {
        match r {
            Ok((module, req)) => Ok((module@, req.spec_method(), req.spec_body_len())),
            Err(resp) => Err((resp.spec_code(), resp.spec_body())),
        }
    }

    /// Turns an inbound request into the module it addresses and the call
    /// descriptor, or into the response that ends it.
    pub fn froom(req: RawRequest) -> (r: Result<(String, Self), Response>)
        ensures
            Self::build_view(r) == descriptor_spec(req.path@, header_view(req.content_length)),
            r matches Ok((_, d)) ==> {
                &&& d.spec_body() == (if req.content_length is Some {
                    Some(req.body)
                } else {
                    None
                })
                &&& d.spec_username() is None
            },
    {
        let routed = route(strip_leading_sep(req.path.as_str()));
        let (module, method) = match routed {
            Ok(parts) => parts,
            Err(e) => {
                return Err(Response::failure(e.code(), e.message()));
            },
        };
        // No identity resolver is wired in: every call is anonymous.
        let username: Option<String> = None;
        let (body_len, body) = match req.content_length {
            Some(value) => {
                match parse_length(value.as_slice()) {
                    Ok(n) => (n, Some(req.body)),
                    Err(le) => {
                        return Err(Response::failure(Code::InternalServerError, le.message()));
                    },
                }
            },
            None => (0, None),
        };
        Ok((module, Request { method, body_len, body, username }))
    }

    /// The declared body length, 0 where none was declared.
    pub fn body_len(&self) -> (r: u64)
        ensures
            r == self.spec_body_len(),
    {
        self.body_len
    }

    /// The identity of the caller, where one was resolved.
    pub fn username(&self) -> (r: Option<&String>)
        ensures
            r == match self.spec_username() {
                Some(u) => Some(&u),
                None => None::<&String>,
            },
    {
        match &self.username {
            Some(u) => Some(u),
            None => None,
        }
    }
}

} // verus!
