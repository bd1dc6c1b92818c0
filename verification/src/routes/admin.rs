//! Bearer-token checks for the admin and export endpoints. The token is compared in
//! constant time; no session is involved.

use vstd::prelude::*;
use vstd::utf8::encode_utf8;

use subtle::ConstantTimeEq;

use crate::error::AppError;
use crate::text::has_prefix;

verus! {

/// The bytes of `Bearer ` that open an `Authorization` header carrying a token.
pub open spec fn bearer_scheme() -> Seq<u8> {
    seq![66u8, 101u8, 97u8, 114u8, 101u8, 114u8, 32u8]
}

/// A byte that a header value may hold and still be read as text: visible ASCII or tab.
pub open spec fn visible_ascii(b: u8) -> bool {
    (32 <= b && b < 127) || b == 9
}

/// The header value's bytes, if there is a header.
pub open spec fn header_bytes(header: Option<&[u8]>) -> Option<Seq<u8>> {
    match header {
        Some(h) => Some(h@),
        None => None,
    }
}

/// The token a request presents: what follows `Bearer ` in an `Authorization` header
/// that reads as text, or the empty string when there is no such header.
pub open spec fn presented_token(header: Option<Seq<u8>>) -> Seq<u8> {
    match header {
        Some(h) => if (forall|i: int| 0 <= i < h.len() ==> visible_ascii(#[trigger] h[i]))
            && has_prefix(h, bearer_scheme()) {
            h.skip(7)
        } else {
            Seq::empty()
        },
        None => Seq::empty(),
    }
}

/// Calls `subtle::ConstantTimeEq::ct_eq` on two byte slices and converts the `Choice` to
/// a `bool`. Its source returns false at once when the lengths differ and otherwise
/// compares every byte, so the answer is whether the two slices are equal.
#[verifier::external_body]
fn constant_time_eq(a: &[u8], b: &[u8]) -> (r: bool)
    ensures
        r == (a@ == b@),
{
    a.ct_eq(b).into()
}

/// The presented token of an `Authorization` header value.
pub fn bearer_token(header: Option<&[u8]>) -> (r: &[u8])
    ensures
        r@ == presented_token(header_bytes(header)),
{
    let empty: &[u8] = &[];
    assert(empty@ =~= Seq::<u8>::empty());
    match header {
        None => empty,
        Some(h) => {
            let mut i: usize = 0;
            while i < h.len()
                invariant
                    header_bytes(header) == Some(h@),
                    empty@ == Seq::<u8>::empty(),
                    i <= h.len(),
                    forall|k: int| 0 <= k < i ==> visible_ascii(#[trigger] h@[k]),
                decreases h.len() - i,
            {
                let b = h[i];
                if !((32 <= b && b < 127) || b == 9) {
                    assert(!visible_ascii(h@[i as int]));
                    return empty;
                }
                i = i + 1;
            }
            if h.len() < 7 || h[0] != 66 || h[1] != 101 || h[2] != 97 || h[3] != 114 || h[4]
                != 101 || h[5] != 114 || h[6] != 32 {
                proof {
                    if h@.len() >= 7 {
                        assert(h@.take(7)[0] == h@[0]);
                        assert(h@.take(7)[1] == h@[1]);
                        assert(h@.take(7)[2] == h@[2]);
                        assert(h@.take(7)[3] == h@[3]);
                        assert(h@.take(7)[4] == h@[4]);
                        assert(h@.take(7)[5] == h@[5]);
                        assert(h@.take(7)[6] == h@[6]);
                    }
                }
                return empty;
            }
            assert(h@.take(7) =~= bearer_scheme());
            let (_, rest) = h.split_at(7);
            assert(rest@ =~= h@.skip(7));
            rest
        },
    }
}

/// Whether the request presents exactly `expected` as its bearer token.
pub fn bearer_matches(header: Option<&[u8]>, expected: &str) -> (r: bool)
    ensures
        r == (presented_token(header_bytes(header)) == encode_utf8(expected@)),
{
    let provided = bearer_token(header);
    constant_time_eq(provided, expected.as_bytes())
}

/// Refuses a request whose bearer token is not the admin token.
pub fn check_admin_token(admin_token: &str, header: Option<&[u8]>) -> (r: Result<(), AppError>)
    ensures
        r is Ok <==> presented_token(header_bytes(header)) == encode_utf8(admin_token@),
        r matches Err(e) ==> e == AppError::Unauthorized,
{
    if !bearer_matches(header, admin_token) {
        return Err(AppError::Unauthorized);
    }
    Ok(())
}

/// A request presents a non-empty token exactly when its `Authorization` header is
/// `Bearer ` followed by that token, and the token's bytes are all readable as header
/// text. So the token checks let a request through exactly when its header is
/// `Bearer <token>`.
pub proof fn lemma_bearer_header_exact(header: Seq<u8>, token: Seq<u8>)
    requires
        token.len() > 0,
    ensures
        presented_token(Some(header)) == token <==> (header == bearer_scheme() + token && forall|
            i: int,
        |
            0 <= i < token.len() ==> visible_ascii(#[trigger] token[i])),
{
    let full = bearer_scheme() + token;
    if presented_token(Some(header)) == token {
        assert(header =~= header.take(7) + header.skip(7));
        assert forall|i: int| 0 <= i < token.len() implies visible_ascii(#[trigger] token[i]) by {
            assert(token[i] == header[i + 7]);
        }
    }
    if header == full && forall|i: int| 0 <= i < token.len() ==> visible_ascii(#[trigger] token[i]) {
        assert forall|i: int| 0 <= i < header.len() implies visible_ascii(#[trigger] header[i]) by {
            if i >= 7 {
                assert(header[i] == token[i - 7]);
            }
        }
        assert(header.take(7) =~= bearer_scheme());
        assert(header.skip(7) =~= token);
    }
}

/// Without an `Authorization` header a request presents no token, so it is refused
/// wherever the expected token is not empty.
pub proof fn lemma_no_header_no_token(token: Seq<u8>)
    requires
        token.len() > 0,
    ensures
        presented_token(None) != token,
{
}

} // verus!
