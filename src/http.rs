//! The answer of a one-page web server: the request line decides between the
//! page and a not-found page, and the response is the status line followed by
//! the page's contents.
use vstd::prelude::*;
use vstd::string::StringExecFns;

verus! {

/// The bytes of the request line `GET / HTTP/1.1` with its line end.
pub open spec fn root_request_line() -> Seq<u8> {
    seq![71u8, 69, 84, 32, 47, 32, 72, 84, 84, 80, 47, 49, 46, 49, 13, 10]
}

/// Whether a request starts by asking for the root page.
pub open spec fn is_root_get(request: Seq<u8>) -> bool {
    request.len() >= root_request_line().len() && request.take(
        root_request_line().len() as int,
    ) == root_request_line()
}

/// The status line and the page that answer a request.
pub struct Route {
    pub status_line: &'static str,
    pub filename: &'static str,
}

fn root_request_bytes() -> (r: Vec<u8>)
    ensures
        r@ == root_request_line(),
{
    let r = vec![71u8, 69, 84, 32, 47, 32, 72, 84, 84, 80, 47, 49, 46, 49, 13, 10];
    assert(r@ =~= root_request_line());
    r
}

/// The answer to `request`: the page with status 200 when it asks for the
/// root, the not-found page with status 404 otherwise.
pub fn route(request: &[u8]) -> (r: Route)
    ensures
        is_root_get(request@) ==> r.status_line@ == "HTTP/1.1 200 OK\r\n\r\n"@ && r.filename@
            == "hello.html"@,
        !is_root_get(request@) ==> r.status_line@ == "HTTP/1.1 404 NOT FOUND\r\n\r\n"@
            && r.filename@ == "404.html"@,
{
    let prefix = root_request_bytes();
    let mut matches = request.len() >= prefix.len();
    let mut i: usize = 0;
    while matches && i < prefix.len()
        invariant
            prefix@ == root_request_line(),
            i <= prefix@.len(),
            matches ==> request@.len() >= prefix@.len(),
            matches ==> forall|j: int| 0 <= j < i ==> request@[j] == prefix@[j],
            !matches ==> !is_root_get(request@),
        decreases prefix@.len() - i + (if matches { 1int } else { 0int }),
    {
        if request[i] != prefix[i] {
            matches = false;
            assert(request@.take(prefix@.len() as int)[i as int] != root_request_line()[i as int]);
        } else {
            i = i + 1;
        }
    }
    if matches {
        assert(request@.take(prefix@.len() as int) =~= root_request_line());
        Route { status_line: "HTTP/1.1 200 OK\r\n\r\n", filename: "hello.html" }
    } else {
        Route { status_line: "HTTP/1.1 404 NOT FOUND\r\n\r\n", filename: "404.html" }
    }
}

/// The response: the status line, then the page's contents.
pub fn response(status_line: &str, contents: &str) -> (r: String)
    ensures
        r@ == status_line@ + contents@,
{
    let mut r = String::from_str(status_line);
    r.append(contents);
    r
}

} // verus!
