//! The Service Layer: the request/response rules of the three listeners.
//! Thin by design — each function only translates between HTTP statuses and
//! the coordinator's results, with no business logic of its own.

use vstd::prelude::*;
use vstd::string::StrSliceExecFns;
use vstd::string::StringSliceAdditionalSpecFns;

use crate::coordinator::CacheCoordinator;
use crate::coordinator::CacheError;

verus! {

pub const STATUS_OK: u16 = 200;

pub const STATUS_BAD_REQUEST: u16 = 400;

pub const STATUS_NOT_FOUND: u16 = 404;

pub const STATUS_INTERNAL_ERROR: u16 = 500;

/// An HTTP response with a text body.
pub struct TextResponse {
    pub status: u16,
    pub body: String,
}

/// An HTTP response with a raw byte body, as the file-serve path returns.
pub struct ByteResponse {
    pub status: u16,
    pub body: Vec<u8>,
}

/// The status each error surfaces as: every failure is client-visible and
/// distinct — origin problem, storage problem, or not cached yet.
pub open spec fn spec_status_for(e: CacheError) -> u16 {
    match e {
        CacheError::OriginFetch => 400,
        CacheError::Storage => 500,
        CacheError::NotFound => 404,
        CacheError::MalformedRequest => 400,
    }
}

/// The text body each error surfaces with.
pub open spec fn spec_error_body(e: CacheError) -> Seq<char> {
    match e {
        CacheError::OriginFetch => "Failed to fetch the URL"@,
        CacheError::Storage => "Internal Server Error"@,
        CacheError::NotFound => "File Not Found"@,
        CacheError::MalformedRequest => "Malformed Request"@,
    }
}

pub fn status_for(e: &CacheError) -> (s: u16)
    ensures
        s == spec_status_for(*e),
{
    match e {
        CacheError::OriginFetch => STATUS_BAD_REQUEST,
        CacheError::Storage => STATUS_INTERNAL_ERROR,
        CacheError::NotFound => STATUS_NOT_FOUND,
        CacheError::MalformedRequest => STATUS_BAD_REQUEST,
    }
}

/// The health listener's one answer: 200 with body `OK`, whatever the
/// request and whatever state ingest or file-serve are in.
pub fn health_response() -> (r: TextResponse)
    ensures
        r.status == 200,
        r.body@ == "OK"@,
{
    TextResponse { status: STATUS_OK, body: String::from_str("OK") }
}

/// The ingest answer: the digest as plain text on success, else the error's
/// own status — 400 for an origin failure, 500 for a storage failure.
pub fn ingest_response(r: Result<String, CacheError>) -> (resp: TextResponse)
    ensures
        (r matches Ok(d) ==> resp.status == 200 && resp.body@ == d@),
        (r matches Err(e) ==> resp.status == spec_status_for(e) && resp.body@ == spec_error_body(
            e,
        )),
{
    match r {
        Ok(digest) => TextResponse { status: STATUS_OK, body: digest },
        Err(e) => {
            let status = status_for(&e);
            let body = match e {
                CacheError::OriginFetch => String::from_str("Failed to fetch the URL"),
                CacheError::Storage => String::from_str("Internal Server Error"),
                CacheError::NotFound => String::from_str("File Not Found"),
                CacheError::MalformedRequest => String::from_str("Malformed Request"),
            };
            TextResponse { status, body }
        },
    }
}

/// What reading a blob produced: its bytes, a benign absence, or a read
/// failure distinct from absence.
pub enum ReadOutcome {
    Bytes(Vec<u8>),
    Absent,
    ReadFailure,
}

/// The file-serve answer: 200 with exactly the stored bytes, 404 with the
/// text `File Not Found` when the blob is absent, 500 with the text
/// `Internal Server Error` on a read error — never a crash of the listener.
pub fn file_serve_response(outcome: ReadOutcome) -> (r: ByteResponse)
    ensures
        (outcome matches ReadOutcome::Bytes(b) ==> r.status == 200 && r.body@ == b@),
        (outcome matches ReadOutcome::Absent ==> r.status == 404 && r.body@
            == "File Not Found".spec_bytes()),
        (outcome matches ReadOutcome::ReadFailure ==> r.status == 500 && r.body@
            == "Internal Server Error".spec_bytes()),
{
    match outcome {
        ReadOutcome::Bytes(bytes) => ByteResponse { status: STATUS_OK, body: bytes },
        ReadOutcome::Absent => ByteResponse {
            status: STATUS_NOT_FOUND,
            body: "File Not Found".as_bytes_vec(),
        },
        ReadOutcome::ReadFailure => ByteResponse {
            status: STATUS_INTERNAL_ERROR,
            body: "Internal Server Error".as_bytes_vec(),
        },
    }
}

/// The whole read path against the coordinator: 200 with exactly the bytes
/// stored under the requested digest, or 404 with `File Not Found` when
/// nothing is.
pub fn serve_blob(cache: &CacheCoordinator, digest: &str) -> (r: ByteResponse)
    ensures
        cache@.blobs.contains_key(digest@) ==> r.status == 200 && r.body@ == cache@.blobs.index(
            digest@,
        ),
        !cache@.blobs.contains_key(digest@) ==> r.status == 404 && r.body@
            == "File Not Found".spec_bytes(),
{
    match cache.get_blob(digest) {
        Some(bytes) => file_serve_response(
            ReadOutcome::Bytes(vstd::slice::slice_to_vec(bytes.as_slice())),
        ),
        None => file_serve_response(ReadOutcome::Absent),
    }
}

/// The whole list path against the coordinator: 200, the body exactly the
/// mapping log in its documented JSON encoding.
pub fn mappings_response(cache: &CacheCoordinator) -> (r: TextResponse)
    ensures
        r.status == 200,
        r.body@ == crate::render::json_mappings(cache@.mappings),
{
    let pairs = cache.list_mappings();
    proof {
        assert(crate::render::pair_views(pairs@) =~= cache@.mappings);
    }
    TextResponse { status: STATUS_OK, body: crate::render::render_mappings(&pairs) }
}

/// Where the ingest/management listener routes a request.
#[derive(Clone, Copy, Debug, PartialEq, Eq, Structural)]
pub enum ManagementRoute {
    /// `POST /cache`: ingest the URL in the body.
    CacheFile,
    /// `GET /mappings`: list the mapping log.
    GetMappings,
    /// Anything else: 404.
    Unknown,
}

/// The management listener's routing rule, exactly: `POST /cache` ingests,
/// `GET /mappings` lists, and nothing else is routed.
pub fn route_management(method: &str, path: &str) -> (r: ManagementRoute)
    ensures
        (r == ManagementRoute::CacheFile <==> (method@ == "POST"@ && path@ == "/cache"@)),
        (r == ManagementRoute::GetMappings <==> (method@ == "GET"@ && path@ == "/mappings"@)),
{
    proof {
        reveal_strlit("POST");
        reveal_strlit("GET");
        reveal_strlit("/cache");
        reveal_strlit("/mappings");
        assert("POST"@.len() != "GET"@.len());
        assert("/cache"@.len() != "/mappings"@.len());
    }
    if crate::text::str_eq(method, "POST") && crate::text::str_eq(path, "/cache") {
        ManagementRoute::CacheFile
    } else if crate::text::str_eq(method, "GET") && crate::text::str_eq(path, "/mappings") {
        ManagementRoute::GetMappings
    } else {
        ManagementRoute::Unknown
    }
}

/// Reads the ingest request body as the raw URL text. The core does not
/// validate it as a well-formed URL; only an undecodable body is malformed.
pub fn parse_ingest_body(body: Vec<u8>) -> (r: Result<String, CacheError>)
    ensures
        vstd::utf8::valid_utf8(body@) ==> (r matches Ok(u) && u@ == vstd::utf8::decode_utf8(
            body@,
        )),
        !vstd::utf8::valid_utf8(body@) ==> r == Err::<String, CacheError>(
            CacheError::MalformedRequest,
        ),
{
    match crate::text::utf8_decode(body) {
        Some(url) => Ok(url),
        None => Err(CacheError::MalformedRequest),
    }
}

/// The permissive cross-origin headers every management response carries,
/// so browser-based clients can call the service directly.
pub fn cors_headers() -> (r: Vec<(String, String)>)
    ensures
        r@.len() == 3,
        r@[0].0@ == "Access-Control-Allow-Origin"@ && r@[0].1@ == "*"@,
        r@[1].0@ == "Access-Control-Allow-Methods"@ && r@[1].1@ == "GET, POST, OPTIONS"@,
        r@[2].0@ == "Access-Control-Allow-Headers"@ && r@[2].1@ == "Content-Type"@,
{
    let mut out: Vec<(String, String)> = Vec::new();
    out.push((String::from_str("Access-Control-Allow-Origin"), String::from_str("*")));
    out.push(
        (String::from_str("Access-Control-Allow-Methods"), String::from_str("GET, POST, OPTIONS")),
    );
    out.push((String::from_str("Access-Control-Allow-Headers"), String::from_str("Content-Type")));
    out
}

} // verus!
