//! The write path's decisions. An upload is authorized, its MIME type turned
//! into a file extension, a fresh id and a staging path chosen; after the
//! row is inserted the JSON receipt is rendered, and a failed insert is a
//! server error. The staging write, the read-back and the insert themselves
//! are the caller's outside work, done between these two steps.
use crate::auth::check_authorization;
use crate::auth::authorized;
use crate::auth::AuthorizationError;
use crate::ident::get_id;
use crate::ident::valid_id;
use crate::mime::ext_of_mime;
use crate::mime::mime_extension;
use crate::Config;
use vstd::prelude::*;
use vstd::string::StrSliceExecFns;
use vstd::string::StringExecFns;

verus! {

/// Why an upload was refused, each with the HTTP status it answers with.
#[derive(Clone, Copy, Debug, PartialEq, Eq, Structural)]
pub enum UploadError {
    /// The authorization check turned the request away: 401.
    Unauthorized(AuthorizationError),
    /// The file part declared no MIME type, so no extension can be derived: 400.
    MissingMime,
    /// The declared MIME type has no recognized extension mapping: 400.
    UnmappedMime,
    /// The staging write or read-back failed: 500.
    Staging,
    /// The row insert failed; the request is not retried: 500.
    Storage,
}

impl UploadError {
    /// The HTTP status this failure answers with: 401 when unauthorized,
    /// 400 for a missing or unmapped MIME type, 500 for storage trouble.
    pub fn status_code(&self) -> (s: u16)
        ensures
            s == match self {
                UploadError::Unauthorized(_) => 401u16,
                UploadError::MissingMime => 400u16,
                UploadError::UnmappedMime => 400u16,
                UploadError::Staging => 500u16,
                UploadError::Storage => 500u16,
            },
    {
        match self {
            UploadError::Unauthorized(_) => 401,
            UploadError::MissingMime => 400,
            UploadError::UnmappedMime => 400,
            UploadError::Staging => 500,
            UploadError::Storage => 500,
        }
    }
}

/// Everything decided before the staging write: the issued id, the derived
/// extension, the MIME type to store verbatim, and where to stage the bytes.
#[derive(Debug)]
pub struct UploadPlan {
    pub id: String,
    pub ext: String,
    pub mimetype: String,
    pub staging_path: String,
}

/// Where an upload's bytes are staged before insertion: `temp/<id>.<ext>`.
pub open spec fn staging_path_of(id: Seq<char>, ext: Seq<char>) -> Seq<char> {
    "temp/"@ + id + "."@ + ext
}

/// A well-formed plan: a valid id, the staging path built from id and
/// extension as the write path stages it.
pub open spec fn plan_wf(p: UploadPlan) -> bool {
    &&& valid_id(p.id@)
    &&& p.staging_path@ == staging_path_of(p.id@, p.ext@)
}

/// The view of an optional header or MIME string, as contracts speak of it.
pub open spec fn opt_view(o: Option<&str>) -> Option<Seq<char>> {
    match o {
        Some(s) => Some(s@),
        None => None,
    }
}

/// The staging location for an id and extension, `temp/<id>.<ext>`.
fn staging_path(id: &str, ext: &str) -> (r: String)
    ensures
        r@ == staging_path_of(id@, ext@),
{
    let mut s = String::from_str("temp/");
    s.append(id);
    s.append(".");
    s.append(ext);
    proof {
        assert(s@ =~= staging_path_of(id@, ext@));
    }
    s
}

/// Every decision of the write path up to the staging write: authorization first,
/// before the file is touched; then the declared MIME type, required and
/// mapped to an extension; then a fresh id and the staging path. Succeeds if
/// and only if the request is authorized and the MIME type is declared and
/// mapped; nothing is staged or inserted for a refused request.
pub fn prepare_upload(auth_header: Option<&str>, cfg: &Config, mime: Option<&str>) -> (r: Result<
    UploadPlan,
    UploadError,
>)
    ensures
        r is Ok <==> ({
            &&& authorized(opt_view(auth_header), cfg.secret@)
            &&& mime matches Some(m)
            &&& ext_of_mime(m@) is Some
        }),
        r matches Ok(p) ==> {
            &&& plan_wf(p)
            &&& mime matches Some(m) && p.mimetype@ == m@ && ext_of_mime(m@) == Some(p.ext@)
        },
        !authorized(opt_view(auth_header), cfg.secret@) ==> r == Result::<
            UploadPlan,
            UploadError,
        >::Err(
            UploadError::Unauthorized(
                if auth_header is None {
                    AuthorizationError::Missing
                } else {
                    AuthorizationError::Invalid
                },
            ),
        ),
        (authorized(opt_view(auth_header), cfg.secret@) && mime is None) ==> r == Result::<
            UploadPlan,
            UploadError,
        >::Err(UploadError::MissingMime),
        ({
            &&& authorized(opt_view(auth_header), cfg.secret@)
            &&& mime matches Some(m)
            &&& ext_of_mime(m@) is None
        }) ==> r == Result::<UploadPlan, UploadError>::Err(UploadError::UnmappedMime),
{
    if let Err(e) = check_authorization(auth_header, cfg.secret.as_str()) {
        return Err(UploadError::Unauthorized(e));
    }
    let declared = match mime {
        Some(m) => m,
        None => {
            return Err(UploadError::MissingMime);
        },
    };
    let ext = match mime_extension(declared) {
        Some(e) => e,
        None => {
            return Err(UploadError::UnmappedMime);
        },
    };
    let id = get_id();
    let path = staging_path(id.as_str(), ext.as_str());
    Ok(UploadPlan { id, ext, mimetype: String::from_str(declared), staging_path: path })
}

/// The JSON receipt for a stored image, exactly
/// `{"id": "<id>", "url": "<base>/<id>.<ext>"}`.
pub open spec fn receipt_json(base: Seq<char>, id: Seq<char>, ext: Seq<char>) -> Seq<char> {
    "{\"id\": \""@ + id + "\", \"url\": \""@ + base + "/"@ + id + "."@ + ext + "\"}"@
}

/// Renders the receipt body for an issued id and extension.
fn render_receipt(base: &str, id: &str, ext: &str) -> (r: String)
    ensures
        r@ == receipt_json(base@, id@, ext@),
{
    let mut s = String::from_str("{\"id\": \"");
    s.append(id);
    s.append("\", \"url\": \"");
    s.append(base);
    s.append("/");
    s.append(id);
    s.append(".");
    s.append(ext);
    s.append("\"}");
    proof {
        assert(s@ =~= receipt_json(base@, id@, ext@));
    }
    s
}

/// The decision after the insert: a stored row yields the JSON receipt for
/// the plan's id and extension, with status 200 and content type
/// `application/json` at the boundary; a failed insert is surfaced as a
/// storage fault (500), never retried, and yields no receipt.
pub fn finish_upload(plan: &UploadPlan, cfg: &Config, insert_ok: bool) -> (r: Result<
    String,
    UploadError,
>)
    ensures
        insert_ok <==> r is Ok,
        r matches Ok(s) ==> s@ == receipt_json(cfg.base_url@, plan.id@, plan.ext@),
        !insert_ok ==> r == Result::<String, UploadError>::Err(UploadError::Storage),
{
    if insert_ok {
        Ok(render_receipt(cfg.base_url.as_str(), plan.id.as_str(), plan.ext.as_str()))
    } else {
        Err(UploadError::Storage)
    }
}

} // verus!
