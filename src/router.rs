use vstd::prelude::*;
use vstd::string::*;
use crate::status::Code;

verus! {

/// Why a path could not be routed to a module and a method.
#[derive(Clone, Copy, Debug, PartialEq, Eq, Structural)]
pub enum RouteError {
    /// A module was named but no method after it.
    BadRequest,
    /// The path names neither a module nor the landing resource.
    NotFound,
}

/// `i` is the position of the first separator of `p`.
pub open spec fn is_first_sep(p: Seq<char>, i: int) -> bool {
    &&& 0 <= i < p.len()
    &&& p[i] == '/'
    &&& forall|j: int| 0 <= j < i ==> p[j] != '/'
}

/// `p` holds a separator.
pub open spec fn has_sep(p: Seq<char>) -> bool {
    exists|i: int| 0 <= i < p.len() && p[i] == '/'
}

/// The position of the first separator of `p`, where `p` holds one.
pub open spec fn first_sep(p: Seq<char>) -> int {
    choose|i: int| is_first_sep(p, i)
}

/// The module of the landing resource.
pub open spec fn default_module() -> Seq<char> {
    seq!['s', 't', 'a', 't', 'i', 'c']
}

/// The method of the landing resource.
pub open spec fn default_method() -> Seq<char> {
    seq!['i', 'n', 'd', 'e', 'x', '.', 'h', 't', 'm', 'l']
}

/// Routing of a path whose leading separator is stripped: the first separator
/// parts the module from the method; the empty path is the landing resource.
pub open spec fn route_spec(p: Seq<char>) -> Result<(Seq<char>, Seq<char>), RouteError> {
    if has_sep(p) {
        let i = first_sep(p);
        let method = p.subrange(i + 1, p.len() as int);
        if method.len() == 0 {
            Err(RouteError::BadRequest)
        } else {
            Ok((p.subrange(0, i), method))
        }
    } else if p.len() == 0 {
        Ok((default_module(), default_method()))
    } else {
        Err(RouteError::NotFound)
    }
}

/// What a routing result holds, as character sequences.
pub open spec fn route_view(r: Result<(String, String), RouteError>) -> Result<
    (Seq<char>, Seq<char>),
    RouteError,
> {
    match r {
        Ok((m, meth)) => Ok((m@, meth@)),
        Err(e) => Err(e),
    }
}

/// A URI path without its leading separator, where it has one.
pub open spec fn strip_spec(p: Seq<char>) -> Seq<char> {
    if p.len() > 0 && p[0] == '/' {
        p.subrange(1, p.len() as int)
    } else {
        p
    }
}

/// A non-empty path without a separator names nothing: routing it fails with
/// `NotFound`.
pub proof fn lemma_route_without_sep(p: Seq<char>)
    requires
        p.len() > 0,
        forall|i: int| 0 <= i < p.len() ==> p[i] != '/',
    ensures
        route_spec(p) == Err::<(Seq<char>, Seq<char>), RouteError>(RouteError::NotFound),
{
}

/// The empty path is the landing resource: module `static`, method
/// `index.html`.
pub proof fn lemma_route_empty()
    ensures
        route_spec(Seq::empty()) == Ok::<(Seq<char>, Seq<char>), RouteError>(
            ("static"@, "index.html"@),
        ),
{
    reveal_strlit("static");
    reveal_strlit("index.html");
    assert("static"@ =~= default_module());
    assert("index.html"@ =~= default_method());
}

/// A module without a separator, a separator and a non-empty method route to
/// that module and that method, whatever separators the method holds: the
/// split is at the first separator.
pub proof fn lemma_route_split(module: Seq<char>, method: Seq<char>)
    requires
        forall|i: int| 0 <= i < module.len() ==> module[i] != '/',
        method.len() > 0,
    ensures
        route_spec(module + seq!['/'] + method) == Ok::<(Seq<char>, Seq<char>), RouteError>(
            (module, method),
        ),
{
    let p = module + seq!['/'] + method;
    let i = module.len() as int;
    assert(is_first_sep(p, i));
    assert(has_sep(p));
    assert(first_sep(p) == i);
    assert(p.subrange(0, i) =~= module);
    assert(p.subrange(i + 1, p.len() as int) =~= method);
}

/// A module without a separator followed by a bare separator names no method:
/// routing it fails with `BadRequest`.
pub proof fn lemma_route_missing_method(module: Seq<char>)
    requires
        forall|i: int| 0 <= i < module.len() ==> module[i] != '/',
    ensures
        route_spec(module.push('/')) == Err::<(Seq<char>, Seq<char>), RouteError>(
            RouteError::BadRequest,
        ),
{
    let p = module.push('/');
    let i = module.len() as int;
    assert(is_first_sep(p, i));
    assert(has_sep(p));
    assert(first_sep(p) == i);
}

/// Routing has no hidden state: two calls of `route` on one path give one
/// result.
pub proof fn lemma_route_deterministic(
    p: Seq<char>,
    r1: Result<(String, String), RouteError>,
    r2: Result<(String, String), RouteError>,
)
    requires
        route_view(r1) == route_spec(p),
        route_view(r2) == route_spec(p),
    ensures
        route_view(r1) == route_view(r2),
{
}

impl RouteError {
    /// The status code that answers this failure.
    pub open spec fn spec_code(self) -> Code {
        match self {
            RouteError::BadRequest => Code::BadRequest,
            RouteError::NotFound => Code::NotFound,
        }
    }

    /// The message that explains this failure.
    pub open spec fn spec_message(self) -> Seq<char> {
        match self {
            RouteError::BadRequest => "Need a method name"@,
            RouteError::NotFound => "Invalid method name"@,
        }
    }

    /// The status code that answers this failure.
    pub fn code(&self) -> (r: Code)
        ensures
            r == self.spec_code(),
    {
        match self {
            RouteError::BadRequest => Code::BadRequest,
            RouteError::NotFound => Code::NotFound,
        }
    }

    /// The message that explains this failure.
    pub fn message(&self) -> (r: &'static str)
        ensures
            r@ == self.spec_message(),
    {
        match self {
            RouteError::BadRequest => "Need a method name",
            RouteError::NotFound => "Invalid method name",
        }
    }
}

/// Drops the leading separator of a URI path, where it has one.
pub fn strip_leading_sep(path: &str) -> (r: &str)
    ensures
        r@ == strip_spec(path@),
{
    let n = path.unicode_len();
    if n > 0 && path.get_char(0) == '/' {
        path.substring_char(1, n)
    } else {
        path
    }
}

/// Splits a path, whose leading separator is stripped, into its module and
/// its method at the first separator.
pub fn route(path: &str) -> (r: Result<(String, String), RouteError>)
    ensures
        route_view(r) == route_spec(path@),
{
    let n = path.unicode_len();
    let mut i: usize = 0;
    while i < n
        invariant
            n == path@.len(),
            i <= n,
            forall|j: int| 0 <= j < i ==> path@[j] != '/',
        decreases n - i,
    {
        if path.get_char(i) == '/' {
            assert(is_first_sep(path@, i as int));
            assert(has_sep(path@));
            assert(first_sep(path@) == i as int);
            if i + 1 == n {
                return Err(RouteError::BadRequest);
            }
            let module = path.substring_char(0, i).to_owned();
            let method = path.substring_char(i + 1, n).to_owned();
            return Ok((module, method));
        }
        i = i + 1;
    }
    assert(!has_sep(path@));
    if n == 0 {
        let module = "static".to_owned();
        let method = "index.html".to_owned();
        proof {
            reveal_strlit("static");
            reveal_strlit("index.html");
            assert(module@ =~= default_module());
            assert(method@ =~= default_method());
        }
        Ok((module, method))
    } else {
        Err(RouteError::NotFound)
    }
}

} // verus!
