//! One extension-to-media-type lookup shared by every tier that serves
//! bytes.
//!
//! The static tier and the content-addressed tier both derive a
//! `Content-Type` from the request path alone.  The table itself comes from
//! the `mime_guess` crate; the one rule of this crate's own is that an
//! `.svg` path always gets `image/svg+xml`, because the content-addressed
//! backend does not reliably report a type for vector images.

use vstd::prelude::*;

verus! {

/// The media type that the extension table assigns to `path`
/// (`application/octet-stream` when no mapping is known).
pub uninterp spec fn spec_guessed_media_type(path: Seq<char>) -> Seq<char>;

/// Relies on `mime_guess::from_path` with `first_or_octet_stream`: the
/// result is a table lookup on the path's extension alone, with
/// `application/octet-stream` as the fallback.
#[verifier::external_body]
fn guess_media_type(path: &str) -> (r: String)
    ensures
        r@ == spec_guessed_media_type(path@),
{
    mime_guess::from_path(path).first_or_octet_stream().to_string()
}

/// `path` ends in `.svg`.
pub open spec fn spec_ends_with_svg(path: Seq<char>) -> bool {
    path.len() >= 4 && path.subrange(path.len() - 4, path.len() as int) == ".svg"@
}

/// The media type served for `path`: `image/svg+xml` for `.svg` paths, the
/// table's answer for everything else.
pub open spec fn spec_content_type_for(path: Seq<char>) -> Seq<char> {
    if spec_ends_with_svg(path) {
        "image/svg+xml"@
    } else {
        spec_guessed_media_type(path)
    }
}

fn ends_with_svg(path: &str) -> (r: bool)
    ensures
        r == spec_ends_with_svg(path@),
{
    proof {
        reveal_strlit(".svg");
    }
    let n = path.unicode_len();
    if n < 4 {
        return false;
    }
    let c0 = path.get_char(n - 4);
    let c1 = path.get_char(n - 3);
    let c2 = path.get_char(n - 2);
    let c3 = path.get_char(n - 1);
    let hit = c0 == '.' && c1 == 's' && c2 == 'v' && c3 == 'g';
    proof {
        let sub = path@.subrange(n - 4, n as int);
        if hit {
            assert(sub =~= ".svg"@);
        } else if sub == ".svg"@ {
            assert(c0 == sub[0] && c1 == sub[1] && c2 == sub[2] && c3 == sub[3]);
        }
    }
    hit
}

/// The `Content-Type` value served for `path`, by the shared lookup.
pub fn content_type_for(path: &str) -> (r: String)
    ensures
        r@ == spec_content_type_for(path@),
{
    if ends_with_svg(path) {
        let r = String::from_str("image/svg+xml");
        r
    } else {
        guess_media_type(path)
    }
}

} // verus!
