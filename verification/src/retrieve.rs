//! The read path: a requested filename is split on its first `.` — the part
//! before it is the lookup id, any extension is ignored — and the stored row,
//! if one was found, becomes a 200 response with the stored bytes and MIME
//! type; anything else is 404. Reads need no authorization.
use crate::ident::valid_id;
use vstd::prelude::*;
use vstd::string::StrSliceExecFns;
use vstd::string::StringExecFns;

verus! {

/// Index of the first `.` in `s`, or `s.len()` if there is none.
pub open spec fn first_dot(s: Seq<char>) -> int
    decreases s.len(),
{
    if s.len() == 0 {
        0
    } else if s[0] == '.' {
        0
    } else {
        1 + first_dot(s.drop_first())
    }
}

/// The id a requested filename resolves to: everything before the first `.`,
/// or the whole name when it has no `.`.
pub open spec fn lookup_key(s: Seq<char>) -> Seq<char> {
    s.take(first_dot(s))
}

proof fn lemma_first_dot_at(s: Seq<char>, i: int)
    requires
        0 <= i <= s.len(),
        forall|j: int| 0 <= j < i ==> s[j] != '.',
        i < s.len() ==> s[i] == '.',
    ensures
        first_dot(s) == i,
    decreases s.len(),
{
    if s.len() == 0 {
    } else if s[0] == '.' {
        assert(i == 0);
    } else {
        assert(forall|j: int| 0 <= j < i - 1 ==> s.drop_first()[j] == s[j + 1]);
        lemma_first_dot_at(s.drop_first(), i - 1);
    }
}

/// The part of the filename before the first `.`, as the read path keys
/// the store: the whole name when no `.` occurs in it.
pub fn image_id_of(filename: &str) -> (r: String)
    ensures
        r@ == lookup_key(filename@),
{
    let n = filename.unicode_len();
    let mut i: usize = 0;
    while i < n && filename.get_char(i) != '.'
        invariant
            n == filename@.len(),
            0 <= i <= n,
            forall|j: int| 0 <= j < i ==> filename@[j] != '.',
        decreases n - i,
    {
        i = i + 1;
    }
    proof {
        lemma_first_dot_at(filename@, i as int);
    }
    String::from_str(filename.substring_char(0, i))
}

/// A stored row of the image table, as the read path sees it: the payload
/// and the MIME type recorded at upload time, absent when the stored text
/// could not be read back.
#[derive(Debug)]
pub struct ImageRecord {
    pub image_data: Vec<u8>,
    pub mimetype: Option<String>,
}

/// A successful read: the bytes to stream back and the `Content-Type`
/// header to send with them.
#[derive(Debug)]
pub struct ImageResponse {
    pub body: Vec<u8>,
    pub content_type: String,
}

/// The read path's only failure: no row answered to the id (a failed
/// lookup is folded into the same answer), shown outside as 404.
#[derive(Clone, Copy, Debug, PartialEq, Eq, Structural)]
pub struct NotFound;

impl NotFound {
    /// The HTTP status a missing image answers with.
    pub fn status_code(&self) -> (s: u16)
        ensures
            s == 404,
    {
        404
    }
}

/// The `Content-Type` a found row is served with: the stored MIME type,
/// or `image/png` when none could be read back.
pub open spec fn served_mime(rec: ImageRecord) -> Seq<char> {
    match rec.mimetype {
        Some(m) => m@,
        None => "image/png"@,
    }
}

/// What the read path answers for a lookup result: the stored bytes and
/// served MIME type of a found row, or nothing.
pub open spec fn lookup_response(row: Option<ImageRecord>) -> Option<(Seq<u8>, Seq<char>)> {
    match row {
        Some(rec) => Some((rec.image_data@, served_mime(rec))),
        None => None,
    }
}

/// Decision on the read path: a found row is served as-is with its stored
/// MIME type (`image/png` when that is unreadable); no row is 404. Ok if
/// and only if a row was found.
pub fn resolve_lookup(row: Option<ImageRecord>) -> (r: Result<ImageResponse, NotFound>)
    ensures
        r is Ok <==> row is Some,
        r matches Ok(resp) ==> lookup_response(row) == Some((resp.body@, resp.content_type@)),
        r matches Err(e) ==> row is None && e == NotFound,
{
    match row {
        Some(rec) => {
            let content_type = match rec.mimetype {
                Some(m) => m,
                None => String::from_str("image/png"),
            };
            Ok(ImageResponse { body: rec.image_data, content_type })
        },
        None => Err(NotFound),
    }
}

/// The view of a lookup result: the stored bytes and stored MIME type,
/// before any serving default is applied.
pub open spec fn lookup_views(row: Option<ImageRecord>) -> Option<(Seq<u8>, Option<Seq<char>>)> {
    match row {
        Some(rec) => Some(
            (
                rec.image_data@,
                match rec.mimetype {
                    Some(m) => Some(m@),
                    None => None,
                },
            ),
        ),
        None => None,
    }
}

/// Law: what a read answers is a function of the stored record alone, so
/// repeated reads of the same immutable record return byte-identical bodies
/// and identical headers.
pub proof fn lemma_reads_idempotent(a: Option<ImageRecord>, b: Option<ImageRecord>)
    requires
        lookup_views(a) == lookup_views(b),
    ensures
        lookup_response(a) == lookup_response(b),
{
}

/// Law: a stored upload reads back unchanged — a row holding the uploaded
/// bytes and the declared MIME type answers with exactly those bytes under
/// exactly that `Content-Type`.
pub proof fn lemma_stored_row_reads_back(rec: ImageRecord, mime: Seq<char>)
    requires
        rec.mimetype matches Some(m) && m@ == mime,
    ensures
        lookup_response(Some(rec)) == Some((rec.image_data@, mime)),
{
}

/// Law: a filename built from an issued id resolves back to that id,
/// whatever extension — right, wrong, or none — follows it; the id alone,
/// with no dot, resolves to itself too.
pub proof fn lemma_filename_roundtrip(id: Seq<char>, ext: Seq<char>)
    requires
        valid_id(id),
    ensures
        lookup_key(id + seq!['.'] + ext) == id,
        lookup_key(id) == id,
{
    let s = id + seq!['.'] + ext;
    assert(forall|j: int| 0 <= j < id.len() ==> s[j] == id[j]);
    assert(s[id.len() as int] == '.');
    lemma_first_dot_at(s, id.len() as int);
    assert(s.take(id.len() as int) =~= id);
    lemma_first_dot_at(id, id.len() as int);
    assert(id.take(id.len() as int) =~= id);
}

} // verus!
