//! The request handler: accepts any well-formed HTTP request and answers
//! with an empty success response, reading nothing from the request.

use vstd::prelude::*;

verus! {

/// An HTTP request, reduced to the plain values the server receives:
/// method, path, headers and body. The handler accepts every such request
/// and inspects none of it.
pub struct HttpRequest {
    pub method: String,
    pub path: String,
    pub headers: Vec<(String, String)>,
    pub body: Vec<u8>,
}

/// The mathematical value of a request.
#[verifier::ext_equal]
pub struct ReqView {
    pub method: Seq<char>,
    pub path: Seq<char>,
    pub headers: Seq<(Seq<char>, Seq<char>)>,
    pub body: Seq<u8>,
}

impl View for HttpRequest {
    type V = ReqView;

    open spec fn view(&self) -> ReqView {
        ReqView {
            method: self.method@,
            path: self.path@,
            headers: self.headers@.map_values(|h: (String, String)| (h.0@, h.1@)),
            body: self.body@,
        }
    }
}

/// An HTTP response: a status code and a body.
pub struct HttpResponse {
    pub status: u16,
    pub body: Vec<u8>,
}

/// The mathematical value of a response.
#[verifier::ext_equal]
pub struct RespView {
    pub status: int,
    pub body: Seq<u8>,
}

impl View for HttpResponse {
    type V = RespView;

    open spec fn view(&self) -> RespView {
        RespView { status: self.status as int, body: self.body@ }
    }
}

/// What the handler answers: the empty success response, whatever the
/// request.
pub open spec fn spec_handle(req: ReqView) -> RespView {
    RespView { status: 200, body: Seq::empty() }
}

/// Handle one request: status `200`, empty body, for every request.
pub fn serve_req(_req: &HttpRequest) -> (r: HttpResponse)
    ensures
        r@ == spec_handle(_req@),
        r.status == 200,
        r.body@ == Seq::<u8>::empty(),
{
    let r = HttpResponse { status: 200, body: Vec::new() };
    proof {
        assert(r@ =~= spec_handle(_req@));
    }
    r
}

/// The answer does not depend on the request: any two requests receive the
/// same response.
pub proof fn lemma_response_independent_of_request(r1: ReqView, r2: ReqView)
    ensures
        spec_handle(r1) == spec_handle(r2),
{
}

} // verus!
