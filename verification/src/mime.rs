//! The MIME-type-to-extension mapping used when naming the staging file and
//! the receipt URL. The mapping itself is rocket's table of known media
//! types; this module only carries its answer, under a name the upload
//! contracts can speak of.
use vstd::prelude::*;

verus! {

/// The file extension rocket's media-type table assigns to a MIME type
/// string, if it recognizes one: `image/png` maps to `png`. A pure
/// function of the string alone.
pub uninterp spec fn ext_of_mime(m: Seq<char>) -> Option<Seq<char>>;

/// Relies on rocket::http::ContentType::parse_flexible and
/// ContentType::extension: parsing a MIME type string and looking its
/// extension up in the known-media-type table, a pure lookup from the
/// string to its extension.
#[verifier::external_body]
pub(crate) fn mime_extension(mime: &str) -> (r: Option<String>)
    ensures
        match r {
            Some(e) => ext_of_mime(mime@) == Some(e@),
            None => ext_of_mime(mime@) is None,
        },
{
    match rocket::http::ContentType::parse_flexible(mime) {
        Some(ct) => ct.extension().map(|e| e.as_str().to_string()),
        None => None,
    }
}

} // verus!
