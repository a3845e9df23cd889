//! The routing decisions of the HTTP application: which mounted subtree
//! handles a request path. The authentication subtree, the middleware-wrapped
//! API subtree and the static-content subtrees each claim a path scope; every
//! other path — the root included — is answered with the entry document, to
//! support client-side routing.

use vstd::prelude::*;
use vstd::string::StrSliceExecFns;
use vstd::string::StringExecFns;

verus! {

/// The subtree of the HTTP application that handles a request.
#[derive(Clone, Copy, Debug, PartialEq, Eq, Structural)]
pub enum RouteTarget {
    /// The authentication subtree (login, token refresh, logout).
    AuthRoutes,
    /// The API subtree, behind the cookie-to-header middleware.
    ApiRoutes,
    /// The compiled client bundle.
    PkgFiles,
    /// Static fonts.
    FontFiles,
    /// Other static assets.
    StaticFiles,
    /// The application's entry document, for the root and every unmatched
    /// path.
    EntryDocument,
}

/// `prefix` matches `path` as a mounted scope: the path begins with the
/// prefix and either ends there or continues with a path separator, so that
/// a scope claims whole path segments only.
pub open spec fn scope_matches(prefix: Seq<char>, path: Seq<char>) -> bool {
    &&& prefix.len() <= path.len()
    &&& path.take(prefix.len() as int) == prefix
    &&& (path.len() == prefix.len() || path[prefix.len() as int] == '/')
}

/// Which subtree serves `path`: the scopes are tried in mount order, fonts
/// before the other static assets, and everything unmatched falls back to
/// the entry document.
pub open spec fn spec_route(path: Seq<char>) -> RouteTarget {
    if scope_matches("/auth"@, path) {
        RouteTarget::AuthRoutes
    } else if scope_matches("/api"@, path) {
        RouteTarget::ApiRoutes
    } else if scope_matches("/pkg"@, path) {
        RouteTarget::PkgFiles
    } else if scope_matches("/static/fonts"@, path) {
        RouteTarget::FontFiles
    } else if scope_matches("/static"@, path) {
        RouteTarget::StaticFiles
    } else {
        RouteTarget::EntryDocument
    }
}

/// Whether `prefix` claims `path` as a mounted scope.
fn matches_scope(path: &str, prefix: &str) -> (matched: bool)
    ensures
        matched == scope_matches(prefix@, path@),
{
    let plen = prefix.unicode_len();
    let slen = path.unicode_len();
    if plen > slen {
        return false;
    }
    let mut i: usize = 0;
    while i < plen
        invariant
            i <= plen,
            plen == prefix@.len(),
            slen == path@.len(),
            plen <= slen,
            forall|k: int| 0 <= k < i as int ==> path@[k] == prefix@[k],
        decreases plen - i,
    {
        if path.get_char(i) != prefix.get_char(i) {
            proof {
                assert(path@.take(plen as int)[i as int] == path@[i as int]);
            }
            return false;
        }
        i = i + 1;
    }
    proof {
        assert(path@.take(plen as int) =~= prefix@);
    }
    if slen == plen {
        return true;
    }
    let c = path.get_char(plen);
    c == '/'
}

/// Route one request path to the subtree that serves it.
pub fn route_for(path: &str) -> (target: RouteTarget)
    ensures
        target == spec_route(path@),
{
    if matches_scope(path, "/auth") {
        RouteTarget::AuthRoutes
    } else if matches_scope(path, "/api") {
        RouteTarget::ApiRoutes
    } else if matches_scope(path, "/pkg") {
        RouteTarget::PkgFiles
    } else if matches_scope(path, "/static/fonts") {
        RouteTarget::FontFiles
    } else if matches_scope(path, "/static") {
        RouteTarget::StaticFiles
    } else {
        RouteTarget::EntryDocument
    }
}

/// The local path of the application's entry document, served for the root
/// path and for every path no other subtree claims.
pub fn entry_document_path() -> (path: String)
    ensures
        path@ == "app/index.html"@,
{
    String::from_str("app/index.html")
}

} // verus!
