use vstd::prelude::*;
use vstd::string::StringSliceAdditionalSpecFns;

use crate::error::{code_name, code_of_name, DbfsError, DbfsErrorCode, DbfsErrorResponse};

verus! {

/// What base64's standard encoding makes of a byte sequence.
pub uninterp spec fn base64_text(b: Seq<u8>) -> Seq<char>;

/// What base64's standard decoding makes of a text: the bytes, or `None`
/// where the text is not valid base64.
pub uninterp spec fn base64_bytes(s: Seq<char>) -> Option<Seq<u8>>;

/// Whether `n` bytes can be encoded: the length of their encoding, four
/// characters for each three bytes or part of three, fits in `usize`.
pub open spec fn encodable(n: nat) -> bool {
    (n + 2) / 3 * 4 <= usize::MAX
}

/// Whether `n` bytes can be encoded.
pub fn fits_encoding(n: usize) -> (r: bool)
    ensures
        r == encodable(n as nat),
{
    let q: usize = if n % 3 == 0 {
        n / 3
    } else {
        n / 3 + 1
    };
    assert(q == (n + 2) / 3);
    let m: usize = usize::MAX / 4;
    assert(q * 4 <= usize::MAX <==> q <= m) by (nonlinear_arith)
        requires
            m == usize::MAX / 4,
    ;
    q <= m
}

/// Relies on `base64::encode`: the standard encoding, with padding, of the
/// bytes; no bytes give the empty text. It panics where the length of the
/// encoding overflows `usize`.
#[verifier::external_body]
fn encode_base64(b: &[u8]) -> (r: String)
    requires
        encodable(b@.len()),
    ensures
        r@ == base64_text(b@),
        b@.len() == 0 ==> r@.len() == 0,
{
    base64::encode(b)
}

/// Relies on `base64::decode`: the standard decoding of the text, or its
/// error where the text is not valid base64. It panics where the byte length
/// of the text plus three overflows `usize`.
#[verifier::external_body]
fn decode_base64(s: &str) -> (r: Result<Vec<u8>, base64::DecodeError>)
    requires
        s.spec_bytes().len() + 3 <= usize::MAX,
    ensures
        match r {
            Ok(v) => base64_bytes(s@) == Some(v@),
            Err(_) => base64_bytes(s@) is None,
        },
{
    base64::decode(s)
}

/// Whether `c` has the Unicode property White_Space.
pub open spec fn is_white_space(c: char) -> bool {
    let u = c as u32;
    (0x9 <= u <= 0xd) || u == 0x20 || u == 0x85 || u == 0xa0 || u == 0x1680 || (0x2000 <= u
        <= 0x200a) || u == 0x2028 || u == 0x2029 || u == 0x202f || u == 0x205f || u == 0x3000
}

/// `s` without its leading white space.
pub open spec fn trim_start(s: Seq<char>) -> Seq<char>
    decreases s.len(),
{
    if s.len() > 0 && is_white_space(s[0]) {
        trim_start(s.skip(1))
    } else {
        s
    }
}

/// `s` without its trailing white space.
pub open spec fn trim_end(s: Seq<char>) -> Seq<char>
    decreases s.len(),
{
    if s.len() > 0 && is_white_space(s.last()) {
        trim_end(s.drop_last())
    } else {
        s
    }
}

/// `s` without its leading and trailing white space.
pub open spec fn trimmed(s: Seq<char>) -> Seq<char> {
    trim_end(trim_start(s))
}

/// Relies on `str::trim`: `s` without leading and trailing white space,
/// white space being the characters with the Unicode property White_Space.
#[verifier::external_body]
fn trim(s: &str) -> (r: &str)
    ensures
        r@ == trimmed(s@),
{
    s.trim()
}

/// The body of an add-block request: a write handle and a block of data,
/// base64-encoded.
#[derive(Debug)]
pub struct AddBlockRequest {
    pub handle: u64,
    pub data: String,
}

impl AddBlockRequest {
    pub fn new(handle: u64, block: &[u8]) -> (r: AddBlockRequest)
        requires
            encodable(block@.len()),
        ensures
            r.handle == handle,
            r.data@ == base64_text(block@),
    {
        AddBlockRequest { handle, data: encode_base64(block) }
    }
}

/// The body of a single-request write: the path, the whole content
/// base64-encoded, and whether an existing file is overwritten.
#[derive(Debug)]
pub struct PutRequest {
    pub path: String,
    pub contents: String,
    pub overwrite: bool,
}

impl PutRequest {
    pub fn new(path: &str, content: &[u8], overwrite: bool) -> (r: PutRequest)
        requires
            encodable(content@.len()),
        ensures
            r.path@ == path@,
            r.contents@ == base64_text(content@),
            r.overwrite == overwrite,
    {
        PutRequest { path: String::from_str(path), contents: encode_base64(content), overwrite }
    }
}

/// The bytes carried by the `data` field of a read response.
pub fn decode_block(data: &str) -> (r: Result<Vec<u8>, DbfsError>)
    requires
        data.spec_bytes().len() + 3 <= usize::MAX,
    ensures
        match r {
            Ok(v) => base64_bytes(data@) == Some(v@),
            Err(e) => base64_bytes(data@) is None && e is DecodeError,
        },
{
    match decode_base64(data) {
        Ok(v) => Ok(v),
        Err(e) => Err(DbfsError::DecodeError(e)),
    }
}

/// Whether an HTTP status is a client error or a server error.
pub open spec fn is_failure(status: u16) -> bool {
    400 <= status < 600
}

/// Whether an HTTP status is a client error or a server error.
pub fn is_failure_status(status: u16) -> (r: bool)
    ensures
        r == is_failure(status),
{
    400 <= status && status < 600
}

/// The error for a failed response. `structured` holds the `error_code` and
/// `message` fields where the body is a JSON object with those two string
/// fields.
pub open spec fn failure_of(
    url: String,
    status: String,
    body: String,
    structured: Option<(String, String)>,
) -> DbfsError {
    match structured {
        Some((code, message)) => match code_of_name(code@) {
            Some(c) => DbfsError::DbfsApiError(c, message),
            None => DbfsError::HttpError(url, status, body),
        },
        None => DbfsError::HttpError(url, status, body),
    }
}

/// Classifies a failed response: a structured body with a known code is a
/// service error, anything else an HTTP error that keeps URL, status and body.
pub fn classify_failure(
    url: String,
    status: String,
    body: String,
    structured: Option<(String, String)>,
) -> (r: DbfsError)
    ensures
        r == failure_of(url, status, body, structured),
{
    match structured {
        Some((code, message)) => match DbfsErrorResponse::from_fields(code.as_str(), message) {
            Some(resp) => DbfsError::DbfsApiError(resp.error_code, resp.message),
            None => DbfsError::HttpError(url, status, body),
        },
        None => DbfsError::HttpError(url, status, body),
    }
}

/// A failed response whose body reports that the resource does not exist
/// is classified as that service error, not as a generic HTTP error.
pub proof fn lemma_not_found_is_classified(
    url: String,
    status: String,
    body: String,
    code: String,
    message: String,
)
    requires
        code@ == code_name(DbfsErrorCode::ResourceDoesNotExist),
    ensures
        failure_of(url, status, body, Some((code, message))) == DbfsError::DbfsApiError(
            DbfsErrorCode::ResourceDoesNotExist,
            message,
        ),
{
    reveal_strlit("RESOURCE_ALREADY_EXISTS");
    reveal_strlit("MAX_BLOCK_SIZE_EXCEEDED");
    reveal_strlit("INVALID_PARAMETER_VALUE");
    reveal_strlit("MAX_READ_SIZE_EXCEEDED");
    reveal_strlit("RESOURCE_DOES_NOT_EXIST");
    assert(code@[9] != code_name(DbfsErrorCode::ResourceAlreadyExists)[9]);
    assert(code@[0] != code_name(DbfsErrorCode::MaxBlockSizeExceeded)[0]);
    assert(code@[0] != code_name(DbfsErrorCode::InvalidParameterValue)[0]);
    assert(code@[0] != code_name(DbfsErrorCode::MaxReadSizeExceeded)[0]);
}

/// The versions of the remote API.
#[allow(non_camel_case_types)]
#[derive(Clone, Copy, Debug, PartialEq, Eq, Structural)]
pub enum DbfsApiVersions {
    API_2_0,
}

impl DbfsApiVersions {
    /// The URL segment of the version.
    pub fn as_str(&self) -> (r: &'static str)
        ensures
            r@ == "api/2.0"@,
    {
        proof {
            reveal_strlit("api/2.0");
        }
        "api/2.0"
    }
}

impl Default for DbfsApiVersions {
    fn default() -> (r: DbfsApiVersions)
        ensures
            r == DbfsApiVersions::API_2_0,
    {
        DbfsApiVersions::API_2_0
    }
}

/// The base URL as it is kept: trimmed, without one trailing `/`, trimmed again.
pub open spec fn normalized_base(u: Seq<char>) -> Seq<char> {
    let t = trimmed(u);
    if t.len() > 0 && t.last() == '/' {
        trimmed(t.drop_last())
    } else {
        t
    }
}

/// Where the API of one workspace is reached.
pub struct Endpoint {
    pub url_base: String,
    pub api_version: DbfsApiVersions,
}

impl Endpoint {
    pub fn new(url_base: &str) -> (r: Endpoint)
        ensures
            r.url_base@ == normalized_base(url_base@),
            r.api_version == DbfsApiVersions::API_2_0,
    {
        let t = trim(url_base);
        let n = t.unicode_len();
        let base = if n > 0 && t.get_char(n - 1) == '/' {
            let s = t.substring_char(0, n - 1);
            assert(s@ =~= t@.drop_last());
            trim(s)
        } else {
            t
        };
        Endpoint { url_base: String::from_str(base), api_version: DbfsApiVersions::API_2_0 }
    }

    /// The URL of an operation: `<base>/<version>/dbfs/<api>`.
    pub fn get_url(&self, api: &str) -> (r: String)
        ensures
            r@ == self.url_base@ + "/"@ + "api/2.0"@ + "/dbfs/"@ + api@,
    {
        let mut s = self.url_base.clone();
        s.append("/");
        s.append(self.api_version.as_str());
        s.append("/dbfs/");
        s.append(api);
        s
    }
}

/// The value of the authorization header for a token; none for an empty token.
pub fn authorization(token: &str) -> (r: Option<String>)
    ensures
        token@.len() == 0 ==> r is None,
        token@.len() > 0 ==> r is Some && r->Some_0@ == "Bearer "@ + token@,
{
    if token.unicode_len() == 0 {
        None
    } else {
        let s = String::from_str("Bearer ");
        Some(s.concat(token))
    }
}

/// A write session's token, returned by create and used by add-block and
/// close. It is not `Clone`: one session has one owner.
#[derive(Debug)]
pub struct Handle(pub u64);

/// A snapshot of a remote file's status.
#[derive(Debug)]
pub struct FileStatus {
    pub path: String,
    pub is_dir: bool,
    pub file_size: u64,
    pub modification_time: u64,
}

} // verus!
