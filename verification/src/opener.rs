//! Building the URI under which a note file is handed to the external
//! editor. The platform-specific launch itself is the caller's business;
//! the engine only computes the URI.

use vstd::prelude::*;
use vstd::string::StringExecFns;

verus! {

/// What urlencoding::encode returns for a string: every byte of its UTF-8
/// form percent-encoded except ASCII alphanumerics and `-`, `_`, `.`, `~`.
/// The result depends on the string alone.
pub uninterp spec fn url_encoded(s: Seq<char>) -> Seq<char>;

/// Relies on urlencoding::encode: percent-encodes every byte except ASCII
/// alphanumerics and `-`, `_`, `.`, `~`; an empty string stays empty.
#[verifier::external_body]
fn url_encode(s: &str) -> (r: String)
    ensures
        r@ == url_encoded(s@),
        s@.len() == 0 ==> r@.len() == 0,
{
    urlencoding::encode(s).into_owned()
}

/// The URI that opens a note in the external editor: the editor's open
/// scheme with the note's full path percent-encoded as the query value.
pub open spec fn note_uri(full_path: Seq<char>) -> Seq<char> {
    "obsidian://open?path="@ + url_encoded(full_path)
}

/// Builds the URI for the note at `full_path`.
pub fn note_open_uri(full_path: &str) -> (u: String)
    ensures
        u@ == note_uri(full_path@),
{
    let mut u = String::from_str("obsidian://open?path=");
    let encoded = url_encode(full_path);
    u.append(encoded.as_str());
    u
}

} // verus!
