//! The mime type of an imported file, guessed from its path.
use vstd::prelude::*;

use crate::tpse::File;

verus! {

/// The mime type that `mime_guess` gives a path by its extension, written out;
/// `application/octet-stream` where the extension is missing or unknown.
pub uninterp spec fn guessed_mime(path: Seq<char>) -> Seq<char>;

/// Calls `mime_guess::from_path(path).first_or_octet_stream()` and writes the mime type
/// out. The guess looks only at the path's extension, in a table built into the crate,
/// so the same path always gives the same text; the contract names that text and says
/// nothing more of it.
#[verifier::external_body]
fn mime_of(path: &str) -> (r: String)
    ensures
        r@ == guessed_mime(path@),
{
    mime_guess::from_path(path).first_or_octet_stream().to_string()
}

/// The file for the bytes imported from `path`, with the mime type its extension gives.
pub fn file_for(path: &str, binary: Vec<u8>) -> (r: File)
    ensures
        r.binary@ == binary@,
        r.mime@ == guessed_mime(path@),
{
    File { binary, mime: mime_of(path) }
}

} // verus!
