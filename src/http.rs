use vstd::prelude::*;
use vstd::string::StringSliceAdditionalSpecFns;

verus! {

/// Whether `b` begins with `p`.
pub open spec fn has_prefix(b: Seq<u8>, p: Seq<u8>) -> bool {
    p.len() <= b.len() && b.take(p.len() as int) == p
}

/// The start of a request for the home page.
pub open spec fn home_request() -> Seq<u8> {
    "GET / HTTP/1.1\r\n".spec_bytes()
}

/// The start of a request for the slow page.
pub open spec fn slow_request() -> Seq<u8> {
    "GET /sleep HTTP/1.1\r\n".spec_bytes()
}

/// Which page a request asks for, going by the start of its bytes.
#[derive(PartialEq, Eq, Structural, Clone, Copy, Debug)]
pub enum Route {
    /// The home page.
    Home,
    /// The home page, answered after a pause.
    Slow,
    /// Anything else.
    NotFound,
}

pub open spec fn route_spec(request: Seq<u8>) -> Route {
    if has_prefix(request, home_request()) {
        Route::Home
    } else if has_prefix(request, slow_request()) {
        Route::Slow
    } else {
        Route::NotFound
    }
}

fn starts_with(b: &[u8], p: &[u8]) -> (r: bool)
    ensures
        r == has_prefix(b@, p@),
{
    if p.len() > b.len() {
        return false;
    }
    let mut i: usize = 0;
    while i < p.len()
        invariant
            p@.len() <= b@.len(),
            i <= p@.len(),
            forall|k: int| 0 <= k < i ==> b@[k] == p@[k],
        decreases p.len() - i,
    {
        if b[i] != p[i] {
            assert(b@.take(p@.len() as int)[i as int] != p@[i as int]);
            return false;
        }
        i = i + 1;
    }
    assert(b@.take(p@.len() as int) =~= p@);
    true
}

/// The page that a request asks for.
pub fn route(request: &[u8]) -> (r: Route)
    ensures
        r == route_spec(request@),
{
    if starts_with(request, "GET / HTTP/1.1\r\n".as_bytes()) {
        Route::Home
    } else if starts_with(request, "GET /sleep HTTP/1.1\r\n".as_bytes()) {
        Route::Slow
    } else {
        Route::NotFound
    }
}

impl Route {
    /// Whether the answer is to be held back for a while.
    pub fn delays(&self) -> (r: bool)
        ensures
            r == (*self == Route::Slow),
    {
        *self == Route::Slow
    }

    /// The status line of the answer.
    pub fn status_line(&self) -> (r: &'static str)
        ensures
            *self == Route::NotFound ==> r@ == "HTTP/1.1 404 NOT FOUND"@,
            *self != Route::NotFound ==> r@ == "HTTP/1.1 200 OK"@,
    {
        match self {
            Route::NotFound => "HTTP/1.1 404 NOT FOUND",
            _ => "HTTP/1.1 200 OK",
        }
    }

    /// The file whose contents answer the request.
    pub fn filename(&self) -> (r: &'static str)
        ensures
            *self == Route::NotFound ==> r@ == "404.html"@,
            *self != Route::NotFound ==> r@ == "index.html"@,
    {
        match self {
            Route::NotFound => "404.html",
            _ => "index.html",
        }
    }
}

/// The decimal digits of `n`, most significant first, as ASCII bytes.
pub open spec fn decimal(n: nat) -> Seq<u8>
    decreases n,
{
    if n < 10 {
        seq![(48 + n) as u8]
    } else {
        decimal(n / 10).push((48 + n % 10) as u8)
    }
}

fn push_decimal(out: &mut Vec<u8>, n: usize)
    ensures
        final(out)@ == old(out)@ + decimal(n as nat),
    decreases n,
{
    if n >= 10 {
        push_decimal(out, n / 10);
    }
    let d: u8 = (n % 10) as u8;
    out.push(48u8 + d);
    assert(final(out)@ =~= old(out)@ + decimal(n as nat));
}

fn push_bytes(out: &mut Vec<u8>, b: &[u8])
    ensures
        final(out)@ == old(out)@ + b@,
{
    let mut i: usize = 0;
    while i < b.len()
        invariant
            i <= b@.len(),
            out@ == old(out)@ + b@.take(i as int),
        decreases b.len() - i,
    {
        out.push(b[i]);
        i = i + 1;
        assert(out@ =~= old(out)@ + b@.take(i as int));
    }
    assert(b@.take(b@.len() as int) =~= b@);
}

/// The bytes of an answer: the status line, a `Content-Length` header that
/// gives the length of `contents` in bytes, an empty line, then `contents`.
pub open spec fn response_spec(status: Seq<u8>, contents: Seq<u8>) -> Seq<u8> {
    status + "\r\nContent-Length: ".spec_bytes() + decimal(contents.len()) + "\r\n\r\n".spec_bytes()
        + contents
}

/// Builds the answer to send back for a request.
pub fn response(status_line: &str, contents: &str) -> (r: Vec<u8>)
    ensures
        r@ == response_spec(status_line.spec_bytes(), contents.spec_bytes()),
{
    let body = contents.as_bytes();
    let mut out: Vec<u8> = Vec::new();
    push_bytes(&mut out, status_line.as_bytes());
    push_bytes(&mut out, "\r\nContent-Length: ".as_bytes());
    push_decimal(&mut out, body.len());
    push_bytes(&mut out, "\r\n\r\n".as_bytes());
    push_bytes(&mut out, body);
    out
}

} // verus!
