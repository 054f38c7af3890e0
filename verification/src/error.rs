//! What can go wrong: one error type for every failure.

use vstd::prelude::*;
use vstd::std_specs::convert::FromSpecImpl;
use crate::json::{Json, JsonValue};
use crate::shape::{FromJson, Table, field, optional, optional_field, required};
use crate::text::same_text;

verus! {

/// `reqwest::header::InvalidHeaderValue`, the error of a text that cannot be
/// the value of an HTTP header. Nothing is said of what is inside one.
#[verifier::external_type_specification]
#[verifier::external_body]
pub struct ExInvalidHeaderValue(reqwest::header::InvalidHeaderValue);

/// The kind of an error that the service reports.
#[derive(Debug, Clone, Copy, PartialEq, Eq, Structural)]
pub enum ApiErrorType {
    /// The request was malformed or failed validation.
    InvalidRequestError,
    /// The credentials were not accepted.
    InvalidAuth,
    /// The request needs credentials and had none.
    AuthorizationRequired,
    /// Nothing exists under the given identifier.
    UnknownResource,
}

impl ApiErrorType {
    /// The name that the service gives the kind.
    pub open spec fn tag_text(self) -> Seq<char> {
        match self {
            ApiErrorType::InvalidRequestError => "invalid_request_error"@,
            ApiErrorType::InvalidAuth => "invalid_auth"@,
            ApiErrorType::AuthorizationRequired => "authorization_required"@,
            ApiErrorType::UnknownResource => "unknown_resource"@,
        }
    }

    /// What a name of the service stands for; nothing for any other text.
    pub open spec fn of_tag(text: Seq<char>) -> Option<ApiErrorType> {
        if text == "invalid_request_error"@ {
            Some(ApiErrorType::InvalidRequestError)
        } else if text == "invalid_auth"@ {
            Some(ApiErrorType::InvalidAuth)
        } else if text == "authorization_required"@ {
            Some(ApiErrorType::AuthorizationRequired)
        } else if text == "unknown_resource"@ {
            Some(ApiErrorType::UnknownResource)
        } else {
            None
        }
    }

    /// The name that the service gives the kind.
    pub fn tag(&self) -> (text: &'static str)
        ensures
            text@ == self.tag_text(),
    {
        match self {
            ApiErrorType::InvalidRequestError => "invalid_request_error",
            ApiErrorType::InvalidAuth => "invalid_auth",
            ApiErrorType::AuthorizationRequired => "authorization_required",
            ApiErrorType::UnknownResource => "unknown_resource",
        }
    }

    /// Reads a name of the service.
    pub fn from_tag(text: &str) -> (read: Option<ApiErrorType>)
        ensures
            read == ApiErrorType::of_tag(text@),
    {
        if same_text(text, "invalid_request_error") {
            Some(ApiErrorType::InvalidRequestError)
        } else if same_text(text, "invalid_auth") {
            Some(ApiErrorType::InvalidAuth)
        } else if same_text(text, "authorization_required") {
            Some(ApiErrorType::AuthorizationRequired)
        } else if same_text(text, "unknown_resource") {
            Some(ApiErrorType::UnknownResource)
        } else {
            None
        }
    }
}

impl DeepView for ApiErrorType {
    type V = ApiErrorType;

    open spec fn deep_view(&self) -> ApiErrorType {
        *self
    }
}

impl FromJson for ApiErrorType {
    open spec fn of_json(doc: JsonValue) -> Option<ApiErrorType> {
        match doc {
            JsonValue::Str(text) => ApiErrorType::of_tag(text),
            _ => None,
        }
    }

    fn from_json(doc: &Json) -> (read: Option<ApiErrorType>) {
        match doc {
            Json::Str(text) => ApiErrorType::from_tag(text.as_str()),
            _ => None,
        }
    }
}

/// Each kind has a name of its own: reading the name that one is given gives it back.
pub proof fn lemma_api_error_type_tag_round_trip(value: ApiErrorType)
    ensures
        ApiErrorType::of_tag(value.tag_text()) == Some(value),
{
    reveal_strlit("invalid_request_error");
    reveal_strlit("invalid_auth");
    reveal_strlit("authorization_required");
    reveal_strlit("unknown_resource");
    assert("invalid_request_error"@.len() == 21);
    assert("invalid_auth"@.len() == 12);
    assert("authorization_required"@.len() == 22);
    assert("unknown_resource"@.len() == 16);
}

/// An error that the service reports.
#[derive(Debug, PartialEq, Eq)]
pub struct ApiError {
    /// For a request that failed validation: the messages for each field.
    pub fields: Option<Table<Vec<String>>>,
    /// What went wrong, in words.
    pub message: String,
    /// The kind of the error.
    pub kind: ApiErrorType,
}

/// The value of a reported error.
pub struct ApiErrorView {
    pub fields: Option<Seq<(Seq<char>, Seq<Seq<char>>)>>,
    pub message: Seq<char>,
    pub kind: ApiErrorType,
}

impl DeepView for ApiError {
    type V = ApiErrorView;

    open spec fn deep_view(&self) -> ApiErrorView {
        ApiErrorView {
            fields: self.fields.deep_view(),
            message: self.message.deep_view(),
            kind: self.kind.deep_view(),
        }
    }
}

impl ApiError {
    /// Whether a document has every member that a reported error needs,
    /// each of its own shape.
    pub open spec fn readable(doc: JsonValue) -> bool {
        &&& doc is Object
        &&& optional::<Table<Vec<String>>>(doc.get("fields"@)) is Some
        &&& required::<String>(doc.get("message"@)) is Some
        &&& required::<ApiErrorType>(doc.get("type"@)) is Some
    }
}

impl FromJson for ApiError {
    open spec fn of_json(doc: JsonValue) -> Option<ApiErrorView> {
        if ApiError::readable(doc) {
            Some(
                ApiErrorView {
                    fields: optional::<Table<Vec<String>>>(doc.get("fields"@))->0,
                    message: required::<String>(doc.get("message"@))->0,
                    kind: required::<ApiErrorType>(doc.get("type"@))->0,
                },
            )
        } else {
            None
        }
    }

    fn from_json(doc: &Json) -> (read: Option<ApiError>) {
        if !doc.is_object() {
            return None;
        }
        let fields = optional_field::<Table<Vec<String>>>(doc, "fields")?;
        let message = field::<String>(doc, "message")?;
        let kind = field::<ApiErrorType>(doc, "type")?;
        Some(ApiError { fields, message, kind })
    }
}

/// Any failure of an operation.
#[derive(Debug, PartialEq, Eq)]
pub enum Error {
    /// The token cannot stand in an HTTP header.
    InvalidToken,
    /// The request could not be sent, or no reply arrived; with what the
    /// transport said of it.
    Reqwest(String),
    /// A body could not be read as JSON of the shape expected; with the reason.
    Serde(String),
    /// The service reported an error.
    Api(ApiError),
}

impl FromSpecImpl<reqwest::header::InvalidHeaderValue> for Error {
    open spec fn obeys_from_spec() -> bool {
        true
    }

    open spec fn from_spec(e: reqwest::header::InvalidHeaderValue) -> Error {
        Error::InvalidToken
    }
}

impl From<reqwest::header::InvalidHeaderValue> for Error {
    fn from(e: reqwest::header::InvalidHeaderValue) -> (error: Error) {
        Error::InvalidToken
    }
}

impl FromSpecImpl<ApiError> for Error {
    open spec fn obeys_from_spec() -> bool {
        true
    }

    open spec fn from_spec(e: ApiError) -> Error {
        Error::Api(e)
    }
}

impl From<ApiError> for Error {
    fn from(e: ApiError) -> (error: Error) {
        Error::Api(e)
    }
}

} // verus!
