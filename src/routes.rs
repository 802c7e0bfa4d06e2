use vstd::prelude::*;
use vstd::string::{StrSliceExecFns, StringSliceAdditionalSpecFns};

verus! {

/// Status code of a request that was served.
pub const OK: u16 = 200;

/// Status code of a request for a path that has no handler.
pub const NOT_FOUND: u16 = 404;

/// Status code of a request whose path has a handler, but not for its method.
pub const METHOD_NOT_ALLOWED: u16 = 405;

/// The method of an HTTP request.
#[derive(Clone, Copy, Debug, PartialEq, Eq, Structural)]
pub enum Method {
    Get,
    Head,
    Post,
    Put,
    Delete,
    Connect,
    Options,
    Trace,
    Patch,
    Other,
}

/// A response: its status code and its body.
pub struct Reply {
    pub status: u16,
    pub body: Vec<u8>,
}

impl View for Reply {
    type V = (u16, Seq<u8>);

    open spec fn view(&self) -> (u16, Seq<u8>) {
        (self.status, self.body@)
    }
}

/// Body of the greeting served at `/`.
pub open spec fn hello_body() -> Seq<u8> {
    "Hello world!".spec_bytes()
}

/// Body of the greeting served at `/hey`.
pub open spec fn hey_body() -> Seq<u8> {
    "Hey there!".spec_bytes()
}

/// A status code in the 4xx class: the request was at fault.
pub open spec fn is_client_error(status: u16) -> bool {
    400 <= status < 500
}

/// Whether some handler is registered for `path`.
pub open spec fn is_route_path(path: Seq<char>) -> bool {
    path == "/"@ || path == "/echo"@ || path == "/hey"@
}

/// The one method under which a registered path is served.
pub open spec fn route_method(path: Seq<char>) -> Method {
    if path == "/"@ {
        Method::Get
    } else if path == "/echo"@ {
        Method::Post
    } else {
        Method::Get
    }
}

/// The response to a request with the given method, path and body.
pub open spec fn reply_of(method: Method, path: Seq<char>, body: Seq<u8>) -> (u16, Seq<u8>) {
    if !is_route_path(path) {
        (NOT_FOUND, Seq::empty())
    } else if method != route_method(path) {
        (METHOD_NOT_ALLOWED, Seq::empty())
    } else if path == "/"@ {
        (OK, hello_body())
    } else if path == "/echo"@ {
        (OK, body)
    } else {
        (OK, hey_body())
    }
}

/// Handler of `GET /`: greets, whatever the request holds.
pub fn hello() -> (r: Reply)
    ensures
        r@ == (OK, hello_body()),
{
    Reply { status: OK, body: "Hello world!".as_bytes_vec() }
}

/// Handler of `POST /echo`: answers with the request body, byte for byte.
pub fn echo(req_body: Vec<u8>) -> (r: Reply)
    ensures
        r@ == (OK, req_body@),
{
    Reply { status: OK, body: req_body }
}

/// Handler of `GET /hey`: a second greeting, whatever the request holds.
pub fn manual_hello() -> (r: Reply)
    ensures
        r@ == (OK, hey_body()),
{
    Reply { status: OK, body: "Hey there!".as_bytes_vec() }
}

/// Whether two strings hold the same characters.
fn same_text(a: &str, b: &str) -> (r: bool)
    ensures
        r == (a@ == b@),
{
    let n: usize = a.unicode_len();
    if n != b.unicode_len() {
        return false;
    }
    let mut i: usize = 0;
    while i < n
        invariant
            n == a@.len(),
            n == b@.len(),
            i <= n,
            a@.subrange(0, i as int) == b@.subrange(0, i as int),
        decreases n - i,
    {
        if a.get_char(i) != b.get_char(i) {
            return false;
        }
        assert(a@.subrange(0, i + 1) == a@.subrange(0, i as int).push(a@[i as int]));
        assert(b@.subrange(0, i + 1) == b@.subrange(0, i as int).push(b@[i as int]));
        i = i + 1;
    }
    assert(a@ == a@.subrange(0, n as int));
    assert(b@ == b@.subrange(0, n as int));
    true
}

/// A response with the given status and no body.
fn bodiless(status: u16) -> (r: Reply)
    ensures
        r@ == (status, Seq::<u8>::empty()),
{
    Reply { status, body: Vec::new() }
}

/// Serves one request: picks the handler registered for its path and
/// method, answers 405 where the path is registered under another method,
/// and 404 where it is not registered at all.
pub fn route(method: Method, path: &str, req_body: Vec<u8>) -> (r: Reply)
    ensures
        r@ == reply_of(method, path@, req_body@),
{
    if same_text(path, "/") {
        if method == Method::Get {
            hello()
        } else {
            bodiless(METHOD_NOT_ALLOWED)
        }
    } else if same_text(path, "/echo") {
        if method == Method::Post {
            echo(req_body)
        } else {
            bodiless(METHOD_NOT_ALLOWED)
        }
    } else if same_text(path, "/hey") {
        if method == Method::Get {
            manual_hello()
        } else {
            bodiless(METHOD_NOT_ALLOWED)
        }
    } else {
        bodiless(NOT_FOUND)
    }
}

/// `GET /` is answered with the greeting, whatever the request body.
pub proof fn lemma_root_greets(body: Seq<u8>)
    ensures
        reply_of(Method::Get, "/"@, body) == (OK, hello_body()),
{
}

/// `POST /echo` hands every body back unchanged: echoing is the identity
/// on byte sequences, the empty one included.
pub proof fn lemma_echo_identity(body: Seq<u8>)
    ensures
        reply_of(Method::Post, "/echo"@, body) == (OK, body),
{
    reveal_strlit("/");
    reveal_strlit("/echo");
    assert("/"@.len() != "/echo"@.len());
}

/// `GET /hey` is answered with the second greeting, whatever the request body.
pub proof fn lemma_hey_greets(body: Seq<u8>)
    ensures
        reply_of(Method::Get, "/hey"@, body) == (OK, hey_body()),
{
    reveal_strlit("/");
    reveal_strlit("/echo");
    reveal_strlit("/hey");
    assert("/"@.len() != "/hey"@.len());
    assert("/echo"@.len() != "/hey"@.len());
}

/// A request for a registered path under any method but the one it is
/// served under is refused with a client error.
pub proof fn lemma_wrong_method_is_client_error(method: Method, path: Seq<char>, body: Seq<u8>)
    requires
        is_route_path(path),
        method != route_method(path),
    ensures
        is_client_error(reply_of(method, path, body).0),
{
}

} // verus!
