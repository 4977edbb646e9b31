//! The command surface of the backend: opening a link with the default
//! handler of the operating system.

use vstd::prelude::*;

verus! {

/// One request to the operating system to open one resource with its default
/// handler. The target is carried exactly as the caller supplied it: no
/// validation, normalisation or re-encoding happens on the way.
pub struct OpenRequest {
    pub url: String,
}

/// Builds the open request for `url`: the request carries the URL
/// byte-for-byte.
pub fn request_for(url: &str) -> (r: OpenRequest)
    ensures
        r.url@ == url@,
{
    OpenRequest { url: url.to_owned() }
}

/// Relies on `webbrowser::open`: it hands the request's URL, unchanged, to
/// the platform's default-handler facility and returns `Ok` exactly when
/// that invocation succeeded. Which outcome comes back depends on the host
/// (installed handlers, environment), so nothing here relates it to the URL.
/// Every failure path in `webbrowser` constructs its error with a non-empty
/// message (or maps all causes to one fixed message), so the rendered error
/// text is never empty.
#[verifier::external_body]
fn dispatch(req: &OpenRequest) -> (r: Result<(), String>)
    ensures
        r is Err ==> r->Err_0@.len() > 0,
{
    webbrowser::open(req.url.as_str()).map_err(|e| e.to_string())
}

/// Opens `url` with the user's default handler (for `http`/`https`, the
/// default browser). Exactly one open request is issued, carrying `url`
/// unchanged; on failure the underlying error is returned rendered as
/// non-empty text. The command keeps no state: nothing connects one
/// invocation to the next.
pub fn open_link_on_click(url: &str) -> (r: Result<(), String>)
    ensures
        r is Err ==> r->Err_0@.len() > 0,
{
    let req = request_for(url);
    dispatch(&req)
}

/// An open request is determined by the URL it was built from, and by nothing
/// else: two requests agree exactly when those URLs agree. Successive
/// invocations of the command with different URLs therefore issue distinct,
/// independent requests.
pub proof fn lemma_requests_independent(
    a: OpenRequest,
    b: OpenRequest,
    ua: Seq<char>,
    ub: Seq<char>,
)
    requires
        a.url@ == ua,
        b.url@ == ub,
    ensures
        (a.url@ == b.url@) <==> (ua == ub),
{
}

} // verus!
