//! The closed failure taxonomy.
//!
//! Every fallible step of request handling reports its failure as exactly
//! one [`Error`] value, propagated unchanged to the request boundary. A
//! kind that wraps a collaborator's failure carries only what the
//! classifier and the diagnostic log read from it: an inspectable error
//! code and the full error text. The text is logged, never sent to a
//! client.

use vstd::prelude::*;
use vstd::string::StringExecFns;
use crate::digits::ParseFailure;
use crate::digits::parse_failure_text;
use crate::digits::dec_rep;
use crate::digits::u16_to_dec;

verus! {

/// A normalized snapshot of a third-party API's error response: the
/// status code it answered with and the message it sent. Immutable once
/// constructed; owned solely by the taxonomy variant that carries it.
#[derive(Clone, Debug, PartialEq, Eq)]
pub struct APILayerError {
    pub status: u16,
    pub message: String,
}

/// The formatted rendering of an [`APILayerError`], used in log output.
pub open spec fn api_layer_error_text(e: APILayerError) -> Seq<char> {
    "Status: "@ + dec_rep(e.status as int) + ", Message: "@ + e.message@
}

impl APILayerError {
    /// The textual form of this snapshot, for the diagnostic log.
    pub fn render(&self) -> (r: String)
        ensures
            r@ == api_layer_error_text(*self),
    {
        let s = String::from_str("Status: ").concat(u16_to_dec(self.status).as_str());
        s.concat(", Message: ").concat(self.message.as_str())
    }
}

/// The normalized shape of a failed data-layer query: the driver's error
/// code, when the driver exposed one, and the driver's full error text.
/// The code is what duplicate-key detection inspects; the text is for the
/// diagnostic log only.
#[derive(Clone, Debug, PartialEq, Eq)]
pub struct DbFailure {
    /// The driver-level error code, when present.
    pub code: Option<String>,
    /// The driver's full error text; never placed in a response body.
    pub detail: String,
}

/// One kind per root cause of a failed request. Kinds that wrap a
/// collaborator's failure carry its normalized form or its error text.
#[derive(Clone, Debug, PartialEq, Eq)]
pub enum Error {
    /// A query or path parameter failed numeric parsing.
    ParseError(ParseFailure),
    /// Required query parameters were absent.
    MissingParameters,
    /// Credential mismatch during login.
    WrongPassword,
    /// The opaque session token failed to decode or verify.
    CannotDecryptToken,
    /// The caller lacks permission over the targeted resource.
    Unauthorized,
    /// The password hashing primitive failed; carries the library's
    /// error text.
    ArgonLibraryError(String),
    /// The referenced question id does not exist.
    QuestionNotFound,
    /// A data-layer query failed.
    DatabaseQueryError(DbFailure),
    /// A schema migration failed at startup; carries the migration
    /// error's text.
    MigrationError(String),
    /// The network call to a third-party API failed at the transport
    /// level; carries the transport error's text.
    ReqwestAPIError(String),
    /// A retry-middleware-wrapped call to a third-party API failed;
    /// carries the wrapped error's text.
    MiddlewareReqwestError(String),
    /// The third-party API rejected the call with a 4xx-class response.
    ClientError(APILayerError),
    /// The third-party API failed with a 5xx-class response.
    ServerError(APILayerError),
}

/// The taxonomy's textual form: a fixed message per kind, with only the
/// carried failure's own text interpolated where the message names it.
pub open spec fn error_text(e: Error) -> Seq<char> {
    match e {
        Error::ParseError(f) => "Cannot parse parameter: "@ + parse_failure_text(f),
        Error::MissingParameters => "Missing parameter"@,
        Error::WrongPassword => "Wrong password"@,
        Error::CannotDecryptToken => "Cannot decrypt error"@,
        Error::Unauthorized => "No permisssion to change the underlying rsource"@,
        Error::ArgonLibraryError(_) => "Connot verify password"@,
        Error::QuestionNotFound => "Question not found"@,
        Error::DatabaseQueryError(_) => "Cannot update, invalid data."@,
        Error::MigrationError(_) => "Cannot migrate data"@,
        Error::ReqwestAPIError(d) => "External API Error: "@ + d@,
        Error::MiddlewareReqwestError(d) => "External API Error: "@ + d@,
        Error::ClientError(a) => "External Client error: "@ + api_layer_error_text(a),
        Error::ServerError(a) => "External Server error: "@ + api_layer_error_text(a),
    }
}

impl Error {
    /// Renders this kind's textual form.
    pub fn render(&self) -> (r: String)
        ensures
            r@ == error_text(*self),
    {
        match self {
            Error::ParseError(f) => String::from_str("Cannot parse parameter: ").concat(
                f.text(),
            ),
            Error::MissingParameters => String::from_str("Missing parameter"),
            Error::WrongPassword => String::from_str("Wrong password"),
            Error::CannotDecryptToken => String::from_str("Cannot decrypt error"),
            Error::Unauthorized => String::from_str(
                "No permisssion to change the underlying rsource",
            ),
            Error::ArgonLibraryError(_) => String::from_str("Connot verify password"),
            Error::QuestionNotFound => String::from_str("Question not found"),
            Error::DatabaseQueryError(_) => String::from_str("Cannot update, invalid data."),
            Error::MigrationError(_) => String::from_str("Cannot migrate data"),
            Error::ReqwestAPIError(d) => String::from_str("External API Error: ").concat(
                d.as_str(),
            ),
            Error::MiddlewareReqwestError(d) => String::from_str("External API Error: ").concat(
                d.as_str(),
            ),
            Error::ClientError(a) => String::from_str("External Client error: ").concat(
                a.render().as_str(),
            ),
            Error::ServerError(a) => String::from_str("External Server error: ").concat(
                a.render().as_str(),
            ),
        }
    }
}

/// Law: the taxonomy's textual form is non-empty for every kind. It is a
/// function of the kind alone, so it is also stable: the same kind always
/// renders the same text, in the fallback response body as in log lines.
pub proof fn lemma_error_text_nonempty(e: Error)
    ensures
        error_text(e).len() > 0,
{
    reveal_strlit("Cannot parse parameter: ");
    reveal_strlit("Missing parameter");
    reveal_strlit("Wrong password");
    reveal_strlit("Cannot decrypt error");
    reveal_strlit("No permisssion to change the underlying rsource");
    reveal_strlit("Connot verify password");
    reveal_strlit("Question not found");
    reveal_strlit("Cannot update, invalid data.");
    reveal_strlit("Cannot migrate data");
    reveal_strlit("External API Error: ");
    reveal_strlit("External Client error: ");
    reveal_strlit("External Server error: ");
}

} // verus!
