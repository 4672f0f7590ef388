//! The closed error taxonomy, and the classification of raw backend
//! failures into it.
//!
//! A raw failure reported by the wire client is modelled by [`RawError`],
//! which records the failure channel (transport, bad response, malformed
//! parameters, or anything else) together with its message text.
//! [`classify_error`] maps a raw failure to exactly one [`ClickHouseError`]
//! kind, falling back on substring heuristics over the message when the
//! channel alone does not decide; [`is_retryable_error`] decides whether a
//! failed attempt may be retried.

use vstd::prelude::*;

verus! {

/// The closed taxonomy of domain errors. Exactly one kind applies to any
/// failure, and each kind carries the context needed to render a message.
#[derive(Debug, PartialEq, Eq)]
pub enum ClickHouseError {
    ConnectionFailed { message: String },
    DatabaseNotFound { database: String },
    TableNotFound { database: String, table: String },
    PermissionDenied { operation: String },
    QueryTimeout { timeout: u64 },
    InvalidIdentifier { identifier: String, reason: String },
    NetworkError { message: String },
    AuthenticationFailed { message: String },
    QueryFailed { message: String },
    ServiceUnavailable { message: String },
    InternalError { message: String },
}

/// The mathematical model of a [`ClickHouseError`]: the same kind, with
/// every text field abstracted to its character sequence.
pub enum ErrorModel {
    ConnectionFailed { message: Seq<char> },
    DatabaseNotFound { database: Seq<char> },
    TableNotFound { database: Seq<char>, table: Seq<char> },
    PermissionDenied { operation: Seq<char> },
    QueryTimeout { timeout: u64 },
    InvalidIdentifier { identifier: Seq<char>, reason: Seq<char> },
    NetworkError { message: Seq<char> },
    AuthenticationFailed { message: Seq<char> },
    QueryFailed { message: Seq<char> },
    ServiceUnavailable { message: Seq<char> },
    InternalError { message: Seq<char> },
}

impl View for ClickHouseError {
    type V = ErrorModel;

    open spec fn view(&self) -> ErrorModel {
        match self {
            ClickHouseError::ConnectionFailed { message } => ErrorModel::ConnectionFailed {
                message: message@,
            },
            ClickHouseError::DatabaseNotFound { database } => ErrorModel::DatabaseNotFound {
                database: database@,
            },
            ClickHouseError::TableNotFound { database, table } => ErrorModel::TableNotFound {
                database: database@,
                table: table@,
            },
            ClickHouseError::PermissionDenied { operation } => ErrorModel::PermissionDenied {
                operation: operation@,
            },
            ClickHouseError::QueryTimeout { timeout } => ErrorModel::QueryTimeout {
                timeout: *timeout,
            },
            ClickHouseError::InvalidIdentifier { identifier, reason } => ErrorModel::InvalidIdentifier {
                identifier: identifier@,
                reason: reason@,
            },
            ClickHouseError::NetworkError { message } => ErrorModel::NetworkError {
                message: message@,
            },
            ClickHouseError::AuthenticationFailed { message } => ErrorModel::AuthenticationFailed {
                message: message@,
            },
            ClickHouseError::QueryFailed { message } => ErrorModel::QueryFailed {
                message: message@,
            },
            ClickHouseError::ServiceUnavailable { message } => ErrorModel::ServiceUnavailable {
                message: message@,
            },
            ClickHouseError::InternalError { message } => ErrorModel::InternalError {
                message: message@,
            },
        }
    }
}

/// A raw failure as the wire client reports it: the failure channel and
/// the message text. This is what the classifier and the retry policy
/// read of a backend failure.
#[derive(Debug, PartialEq, Eq)]
pub enum RawError {
    /// A transport or network failure.
    Network { message: String },
    /// The backend answered, but with an error body.
    BadResponse { message: String },
    /// The request itself was malformed (bad parameters).
    InvalidParams { message: String },
    /// Any other failure (timeouts among them).
    Other { message: String },
}

/// Retryability policy: transport failures and unclassified failures are
/// retryable; a bad response (authentication, permission, "not found") and
/// malformed parameters are not, since retrying cannot change them.
pub open spec fn spec_is_retryable(e: RawError) -> bool {
    match e {
        RawError::Network { message: _ } => true,
        RawError::BadResponse { message: _ } => false,
        RawError::InvalidParams { message: _ } => false,
        RawError::Other { message: _ } => true,
    }
}

/// Whether `needle` occurs contiguously inside `hay`.
pub open spec fn contains_seq(hay: Seq<char>, needle: Seq<char>) -> bool {
    exists|i: int|
        0 <= i <= hay.len() - needle.len() && #[trigger] hay.subrange(i, i + needle.len() as int)
            == needle
}

/// How a bad-response message is classified, by substring heuristics over
/// the exact phrases the backend uses. The phrases are part of the
/// contract: changing them would silently change classification.
pub open spec fn spec_classify_bad_response(m: Seq<char>) -> ErrorModel {
    if contains_seq(m, "Authentication failed"@) {
        ErrorModel::AuthenticationFailed { message: m }
    } else if contains_seq(m, "doesn't exist"@) {
        if contains_seq(m, "Database"@) {
            ErrorModel::DatabaseNotFound { database: "unknown"@ }
        } else {
            ErrorModel::TableNotFound { database: "unknown"@, table: "unknown"@ }
        }
    } else if contains_seq(m, "Access denied"@) {
        ErrorModel::PermissionDenied { operation: "query"@ }
    } else {
        ErrorModel::QueryFailed { message: m }
    }
}

/// The classification of a raw failure into the closed taxonomy.
pub open spec fn spec_classify(e: RawError) -> ErrorModel {
    match e {
        RawError::Network { message } => ErrorModel::NetworkError { message: message@ },
        RawError::BadResponse { message } => spec_classify_bad_response(message@),
        RawError::InvalidParams { message } => ErrorModel::QueryFailed { message: message@ },
        RawError::Other { message } => ErrorModel::InternalError { message: message@ },
    }
}

/// Decides whether a raw failure may be retried.
pub fn is_retryable_error(e: &RawError) -> (r: bool)
    ensures
        r == spec_is_retryable(*e),
{
    match e {
        RawError::Network { message: _ } => true,
        RawError::BadResponse { message: _ } => false,
        RawError::InvalidParams { message: _ } => false,
        RawError::Other { message: _ } => true,
    }
}

/// Maps a raw backend failure to exactly one domain error kind.
pub fn classify_error(e: RawError) -> (r: ClickHouseError)
    ensures
        r@ == spec_classify(e),
{
    match e {
        RawError::Network { message } => ClickHouseError::NetworkError { message },
        RawError::InvalidParams { message } => ClickHouseError::QueryFailed { message },
        RawError::BadResponse { message } => {
            if contains_str(message.as_str(), "Authentication failed") {
                ClickHouseError::AuthenticationFailed { message }
            } else if contains_str(message.as_str(), "doesn't exist") {
                if contains_str(message.as_str(), "Database") {
                    ClickHouseError::DatabaseNotFound { database: String::from_str("unknown") }
                } else {
                    ClickHouseError::TableNotFound {
                        database: String::from_str("unknown"),
                        table: String::from_str("unknown"),
                    }
                }
            } else if contains_str(message.as_str(), "Access denied") {
                ClickHouseError::PermissionDenied { operation: String::from_str("query") }
            } else {
                ClickHouseError::QueryFailed { message }
            }
        },
        RawError::Other { message } => ClickHouseError::InternalError { message },
    }
}

/// Whether `needle` occurs contiguously inside `hay`, by a direct search.
pub fn contains_str(hay: &str, needle: &str) -> (b: bool)
    ensures
        b == contains_seq(hay@, needle@),
{
    let h = hay.unicode_len();
    let n = needle.unicode_len();
    if n > h {
        return false;
    }
    if n == 0 {
        assert(contains_seq(hay@, needle@)) by {
            assert(hay@.subrange(0, 0 + needle@.len() as int) =~= needle@);
        }
        return true;
    }
    let mut i: usize = 0;
    while i <= h - n
        invariant
            h == hay@.len(),
            n == needle@.len(),
            1 <= n <= h,
            0 <= i <= h - n + 1,
            forall|k: int|
                0 <= k < i ==> #[trigger] hay@.subrange(k, k + n as int) != needle@,
        decreases h - n - i + 1,
    {
        let mut j: usize = 0;
        let mut mismatch = false;
        while j < n
            invariant
                h == hay@.len(),
                n == needle@.len(),
                0 <= i <= h - n,
                0 <= j <= n,
                !mismatch ==> forall|k: int| 0 <= k < j ==> hay@[i + k] == needle@[k],
                mismatch ==> hay@.subrange(i as int, i + n as int) != needle@,
            decreases n - j,
        {
            let hc = hay.get_char(i + j);
            let nc = needle.get_char(j);
            if hc != nc {
                proof {
                    let sub = hay@.subrange(i as int, i + n as int);
                    assert(sub[j as int] == hay@[i + j]);
                }
                mismatch = true;
                j = n;
            } else {
                j = j + 1;
            }
        }
        if !mismatch {
            proof {
                let sub = hay@.subrange(i as int, i + n as int);
                assert(sub =~= needle@);
            }
            return true;
        }
        i = i + 1;
    }
    false
}

} // verus!
