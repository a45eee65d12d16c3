use vstd::prelude::*;

verus! {

/// The error codes that the service reports in a structured error body.
#[derive(Clone, Copy, Debug, PartialEq, Eq, Structural)]
pub enum DbfsErrorCode {
    ResourceAlreadyExists,
    MaxBlockSizeExceeded,
    InvalidParameterValue,
    MaxReadSizeExceeded,
    ResourceDoesNotExist,
}

/// The name under which the service writes each error code.
pub open spec fn code_name(c: DbfsErrorCode) -> Seq<char> {
    match c {
        DbfsErrorCode::ResourceAlreadyExists => "RESOURCE_ALREADY_EXISTS"@,
        DbfsErrorCode::MaxBlockSizeExceeded => "MAX_BLOCK_SIZE_EXCEEDED"@,
        DbfsErrorCode::InvalidParameterValue => "INVALID_PARAMETER_VALUE"@,
        DbfsErrorCode::MaxReadSizeExceeded => "MAX_READ_SIZE_EXCEEDED"@,
        DbfsErrorCode::ResourceDoesNotExist => "RESOURCE_DOES_NOT_EXIST"@,
    }
}

/// The code written under a name, if any.
pub open spec fn code_of_name(s: Seq<char>) -> Option<DbfsErrorCode> {
    if s == code_name(DbfsErrorCode::ResourceAlreadyExists) {
        Some(DbfsErrorCode::ResourceAlreadyExists)
    } else if s == code_name(DbfsErrorCode::MaxBlockSizeExceeded) {
        Some(DbfsErrorCode::MaxBlockSizeExceeded)
    } else if s == code_name(DbfsErrorCode::InvalidParameterValue) {
        Some(DbfsErrorCode::InvalidParameterValue)
    } else if s == code_name(DbfsErrorCode::MaxReadSizeExceeded) {
        Some(DbfsErrorCode::MaxReadSizeExceeded)
    } else if s == code_name(DbfsErrorCode::ResourceDoesNotExist) {
        Some(DbfsErrorCode::ResourceDoesNotExist)
    } else {
        None
    }
}

fn str_eq(a: &str, b: &str) -> (r: bool)
    ensures
        r == (a@ == b@),
{
    let n = a.unicode_len();
    if n != b.unicode_len() {
        return false;
    }
    let mut i: usize = 0;
    while i < n
        invariant
            n == a@.len(),
            n == b@.len(),
            i <= n,
            forall|j: int| 0 <= j < i ==> a@[j] == b@[j],
        decreases n - i,
    {
        if a.get_char(i) != b.get_char(i) {
            return false;
        }
        i = i + 1;
    }
    assert(a@ =~= b@);
    true
}

impl DbfsErrorCode {
    /// The name under which the service writes this code.
    pub fn as_str(&self) -> (r: &'static str)
        ensures
            r@ == code_name(*self),
    {
        match self {
            DbfsErrorCode::ResourceAlreadyExists => "RESOURCE_ALREADY_EXISTS",
            DbfsErrorCode::MaxBlockSizeExceeded => "MAX_BLOCK_SIZE_EXCEEDED",
            DbfsErrorCode::InvalidParameterValue => "INVALID_PARAMETER_VALUE",
            DbfsErrorCode::MaxReadSizeExceeded => "MAX_READ_SIZE_EXCEEDED",
            DbfsErrorCode::ResourceDoesNotExist => "RESOURCE_DOES_NOT_EXIST",
        }
    }

    /// The name under which the service writes this code, as an owned string.
    pub fn to_string(&self) -> (r: String)
        ensures
            r@ == code_name(*self),
    {
        String::from_str(self.as_str())
    }

    /// The code that the service writes under `name`, if there is one.
    pub fn from_name(name: &str) -> (r: Option<DbfsErrorCode>)
        ensures
            r == code_of_name(name@),
    {
        if str_eq(name, "RESOURCE_ALREADY_EXISTS") {
            Some(DbfsErrorCode::ResourceAlreadyExists)
        } else if str_eq(name, "MAX_BLOCK_SIZE_EXCEEDED") {
            Some(DbfsErrorCode::MaxBlockSizeExceeded)
        } else if str_eq(name, "INVALID_PARAMETER_VALUE") {
            Some(DbfsErrorCode::InvalidParameterValue)
        } else if str_eq(name, "MAX_READ_SIZE_EXCEEDED") {
            Some(DbfsErrorCode::MaxReadSizeExceeded)
        } else if str_eq(name, "RESOURCE_DOES_NOT_EXIST") {
            Some(DbfsErrorCode::ResourceDoesNotExist)
        } else {
            None
        }
    }
}

/// A structured error body: `{ error_code, message }`.
#[derive(Debug)]
pub struct DbfsErrorResponse {
    pub error_code: DbfsErrorCode,
    pub message: String,
}

impl DbfsErrorResponse {
    /// The structured error with the code named `error_code`; `None` where
    /// the name is not one of the service's codes.
    pub fn from_fields(error_code: &str, message: String) -> (r: Option<DbfsErrorResponse>)
        ensures
            match code_of_name(error_code@) {
                Some(c) => r is Some && r->Some_0.error_code == c && r->Some_0.message == message,
                None => r is None,
            },
    {
        match DbfsErrorCode::from_name(error_code) {
            Some(c) => Some(DbfsErrorResponse { error_code: c, message }),
            None => None,
        }
    }
}

/// Relies on the type of base64's decoding errors, carried as it is.
#[verifier::external_type_specification]
#[verifier::external_body]
pub struct ExDecodeError(base64::DecodeError);

/// Every way in which an operation of the client can fail.
#[derive(Debug)]
pub enum DbfsError {
    /// The request could not be sent or its response could not be received.
    ReqwestError(String),
    /// A failed response whose body is not a structured error: URL, status, body.
    HttpError(String, String, String),
    /// Block data that is not valid base64.
    DecodeError(base64::DecodeError),
    /// A local file could not be read or written.
    IoError(String),
    /// A response body that is not the JSON that the operation expects.
    JsonError(String),
    /// A structured error reported by the service.
    DbfsApiError(DbfsErrorCode, String),
    /// A remote path that is not absolute once the scheme is stripped.
    InvalidDbfsPath(String),
}

/// What the `Display` of base64's decoding errors writes for `e`.
pub uninterp spec fn decode_error_message(e: base64::DecodeError) -> Seq<char>;

/// Relies on the `Display` of base64's decoding errors: the message depends
/// on the error alone.
#[verifier::external_body]
fn decode_error_text(e: &base64::DecodeError) -> (r: String)
    ensures
        r@ == decode_error_message(*e),
{
    e.to_string()
}

/// The message of an error; where it wraps a decoding error, that error's
/// own message.
pub open spec fn error_text(e: DbfsError) -> Seq<char> {
    match e {
        DbfsError::ReqwestError(m) => m@,
        DbfsError::HttpError(url, status, body) => "HTTP Error, URL: '"@ + url@ + "', Status: "@
            + status@ + ", Response: '"@ + body@ + "' "@,
        DbfsError::DecodeError(e) => decode_error_message(e),
        DbfsError::IoError(m) => m@,
        DbfsError::JsonError(m) => m@,
        DbfsError::DbfsApiError(c, m) => "DBFS Error, Code: "@ + code_name(c) + ", message: "@
            + m@,
        DbfsError::InvalidDbfsPath(p) => "Invalid DBFS Path "@ + p@,
    }
}

impl DbfsError {
    /// The message of the error.
    pub fn to_string(&self) -> (r: String)
        ensures
            r@ == error_text(*self),
    {
        match self {
            DbfsError::ReqwestError(m) => m.clone(),
            DbfsError::HttpError(url, status, body) => {
                let mut s = String::from_str("HTTP Error, URL: '");
                s.append(url.as_str());
                s.append("', Status: ");
                s.append(status.as_str());
                s.append(", Response: '");
                s.append(body.as_str());
                s.append("' ");
                s
            },
            DbfsError::DecodeError(e) => decode_error_text(e),
            DbfsError::IoError(m) => m.clone(),
            DbfsError::JsonError(m) => m.clone(),
            DbfsError::DbfsApiError(c, m) => {
                let mut s = String::from_str("DBFS Error, Code: ");
                s.append(c.as_str());
                s.append(", message: ");
                s.append(m.as_str());
                s
            },
            DbfsError::InvalidDbfsPath(p) => {
                let mut s = String::from_str("Invalid DBFS Path ");
                s.append(p.as_str());
                s
            },
        }
    }
}

} // verus!
