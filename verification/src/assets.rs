//! What the static frontend is answered with: the asset path of a request, its content
//! type and its cache policy. The files themselves are embedded by the binary.

use vstd::prelude::*;

use crate::text::{has_prefix, starts_with, strip_leading, trim_start_matches};

verus! {

/// The page served at `/`.
pub const INDEX_PATH: &'static str = "index.html";

/// The content type that `mime_guess` picks for `path`.
pub uninterp spec fn guessed_mime(path: Seq<char>) -> Seq<char>;

/// Calls `mime_guess::from_path(path).first_or_octet_stream()` and takes the MIME type's
/// text. The guess depends on the path's extension through a fixed table; the contract
/// names the outcome `guessed_mime` and claims nothing more of it.
#[verifier::external_body]
fn mime_for(path: &str) -> (r: String)
    ensures
        r@ == guessed_mime(path@),
{
    let mime = mime_guess::from_path(path).first_or_octet_stream();
    mime.as_ref().to_owned()
}

/// The embedded asset a request path names: the path without its leading slashes.
pub fn asset_path(uri_path: &str) -> (r: String)
    ensures
        r@ == strip_leading(uri_path@, "/"@),
{
    proof {
        reveal_strlit("/");
    }
    trim_start_matches(uri_path, "/")
}

/// The cache policy: files under `assets/` may be cached for a day, everything else must
/// be revalidated.
pub open spec fn cache_policy(path: Seq<char>) -> Seq<char> {
    if has_prefix(path, "assets/"@) {
        "public, max-age=86400"@
    } else {
        "no-cache"@
    }
}

/// The headers an embedded asset is answered with.
pub struct AssetHeaders {
    pub content_type: String,
    pub cache_control: String,
}

/// How a request for an asset is answered.
pub enum Served {
    /// `200` with the embedded file as the body and these headers.
    Found(AssetHeaders),
    /// `404` with the plain body `Not Found`.
    NotFound,
}

/// Answers a request for `path`, given whether the binary embeds a file at that path.
pub fn serve(path: &str, embedded: bool) -> (r: Served)
    ensures
        embedded <==> r is Found,
        r matches Served::Found(h) ==> h.content_type@ == guessed_mime(path@) && h.cache_control@
            == cache_policy(path@),
{
    if !embedded {
        return Served::NotFound;
    }
    let cache = if starts_with(path, "assets/") {
        "public, max-age=86400".to_owned()
    } else {
        "no-cache".to_owned()
    };
    Served::Found(AssetHeaders { content_type: mime_for(path), cache_control: cache })
}

/// Every embedded asset whose path does not itself start with a slash is reached by its
/// path behind one leading slash: `/p` serves `p`.
pub proof fn lemma_slash_path_names_asset(p: Seq<char>)
    requires
        !has_prefix(p, "/"@),
    ensures
        strip_leading("/"@ + p, "/"@) == p,
{
    reveal_strlit("/");
    let s = "/"@ + p;
    assert(s.take(1) =~= "/"@);
    assert(s.skip(1) =~= p);
    reveal_with_fuel(strip_leading, 2);
}

} // verus!
