//! Where requests go, what is sent, and what a reply means.

use vstd::prelude::*;
use vstd::std_specs::convert::FromSpecImpl;
use vstd::string::StringExecFns;
use crate::client::Client;
use crate::error::{ApiError, ApiErrorView, Error};
use crate::ids::{TokenId, UserId};
use crate::json::{Json, JsonValue, json_document, json_text};
use crate::shape::{FromJson, ToJson};

verus! {

/// A region in which servers run.
#[derive(Debug, Clone, Copy, PartialEq, Eq, Structural)]
pub enum Region {
    /// Paris.
    Par1,
    /// Amsterdam.
    Ams1,
}

impl Region {
    /// The region's name as it stands in host names.
    pub open spec fn name_text(self) -> Seq<char> {
        match self {
            Region::Par1 => "par1"@,
            Region::Ams1 => "ams1"@,
        }
    }

    /// The region's name as it stands in host names.
    pub fn name(&self) -> (text: &'static str)
        ensures
            text@ == self.name_text(),
    {
        match self {
            Region::Par1 => "par1",
            Region::Ams1 => "ams1",
        }
    }
}

/// A resource of the account service.
#[derive(Debug, PartialEq, Eq)]
pub enum Account {
    /// All tokens.
    Tokens,
    /// One token.
    Token(TokenId),
    /// All organizations.
    Organizations,
    /// One user.
    Users(UserId),
}

/// A resource of the compute service of a region.
#[derive(Debug, Clone, Copy, PartialEq, Eq, Structural)]
pub enum Compute {
    /// All servers.
    Servers,
}

impl Compute {
    /// The path of the resource.
    pub open spec fn path_text(self) -> Seq<char> {
        match self {
            Compute::Servers => "servers"@,
        }
    }

    /// The path of the resource.
    pub fn path(&self) -> (text: &'static str)
        ensures
            text@ == self.path_text(),
    {
        match self {
            Compute::Servers => "servers",
        }
    }
}

/// A resource of the service: what a request is about.
#[derive(Debug, PartialEq, Eq)]
pub enum Endpoint {
    Account(Account),
    Compute(Region, Compute),
}

impl FromSpecImpl<Account> for Endpoint {
    open spec fn obeys_from_spec() -> bool {
        true
    }

    open spec fn from_spec(account: Account) -> Endpoint {
        Endpoint::Account(account)
    }
}

impl From<Account> for Endpoint {
    fn from(account: Account) -> (endpoint: Endpoint) {
        Endpoint::Account(account)
    }
}

impl FromSpecImpl<(Region, Compute)> for Endpoint {
    open spec fn obeys_from_spec() -> bool {
        true
    }

    open spec fn from_spec(target: (Region, Compute)) -> Endpoint {
        Endpoint::Compute(target.0, target.1)
    }
}

impl From<(Region, Compute)> for Endpoint {
    fn from(target: (Region, Compute)) -> (endpoint: Endpoint) {
        Endpoint::Compute(target.0, target.1)
    }
}

/// The address of a resource: the fixed address of its collection, then, for a
/// single resource, a slash and the identifier as it is.
pub open spec fn url_text(action: Endpoint) -> Seq<char> {
    match action {
        Endpoint::Account(Account::Tokens) => "https://account.scaleway.com/tokens"@,
        Endpoint::Account(Account::Token(id)) => "https://account.scaleway.com/tokens/"@ + id@,
        Endpoint::Account(Account::Organizations) => "https://account.scaleway.com/organizations"@,
        Endpoint::Account(Account::Users(id)) => "https://account.scaleway.com/users/"@ + id@,
        Endpoint::Compute(region, resource) => "https://cp-"@ + region.name_text()
            + ".scaleway.com/"@ + resource.path_text(),
    }
}

/// The address of a resource.
pub fn url(action: Endpoint) -> (address: String)
    ensures
        address@ == url_text(action),
{
    match action {
        Endpoint::Account(Account::Tokens) => "https://account.scaleway.com/tokens".to_owned(),
        Endpoint::Account(Account::Token(id)) => {
            let mut address = "https://account.scaleway.com/tokens/".to_owned();
            address.append(id.as_str());
            address
        },
        Endpoint::Account(Account::Organizations) => {
            "https://account.scaleway.com/organizations".to_owned()
        },
        Endpoint::Account(Account::Users(id)) => {
            let mut address = "https://account.scaleway.com/users/".to_owned();
            address.append(id.as_str());
            address
        },
        Endpoint::Compute(region, resource) => {
            let mut address = "https://cp-".to_owned();
            address.append(region.name());
            address.append(".scaleway.com/");
            address.append(resource.path());
            address
        },
    }
}

/// The body of a request that has nothing to say: an object without members.
#[derive(Debug, Clone, Copy, PartialEq, Eq, Structural)]
pub struct NilType {}

impl FromSpecImpl<()> for NilType {
    open spec fn obeys_from_spec() -> bool {
        true
    }

    open spec fn from_spec(unit: ()) -> NilType {
        NilType {  }
    }
}

impl From<()> for NilType {
    fn from(unit: ()) -> (nil: NilType) {
        NilType {  }
    }
}

impl ToJson for NilType {
    open spec fn json(&self) -> JsonValue {
        JsonValue::Object(Seq::empty())
    }

    fn to_json(&self) -> (doc: Json) {
        let doc = Json::Object(Vec::new());
        proof {
            crate::json::lemma_object_view(&doc);
            assert(doc@->Object_0 =~= Seq::empty());
        }
        doc
    }
}

/// What a body says when it is read first as a `T` and, failing that, as an
/// error of the service; nothing where it is neither.
pub open spec fn either<T: FromJson>(doc: JsonValue) -> Option<Result<T::V, ApiErrorView>> {
    match T::of_json(doc) {
        Some(value) => Some(Ok(value)),
        None => match ApiError::of_json(doc) {
            Some(error) => Some(Err(error)),
            None => None,
        },
    }
}

/// What the service answered: what was asked for, or an error that it reports.
#[derive(Debug, PartialEq, Eq)]
pub enum ApiResponse<T> {
    Success(T),
    Error(ApiError),
}

impl<T> ApiResponse<T> {
    /// The answer as a result: the error of the service becomes [`Error::Api`].
    pub fn into(self) -> (result: Result<T, Error>)
        ensures
            result == (match self {
                ApiResponse::Success(value) => Ok::<T, Error>(value),
                ApiResponse::Error(error) => Err::<T, Error>(Error::Api(error)),
            }),
    {
        match self {
            ApiResponse::Success(value) => Ok(value),
            ApiResponse::Error(error) => Err(Error::Api(error)),
        }
    }
}

impl<T: FromJson> ApiResponse<T> {
    /// Reads a body: first as a `T`, and only where it is none, as an error of
    /// the service.
    pub fn from_json(doc: &Json) -> (read: Option<ApiResponse<T>>)
        ensures
            match either::<T>(doc@) {
                Some(Ok(value)) => read matches Some(ApiResponse::Success(x)) && x.deep_view()
                    == value,
                Some(Err(error)) => read matches Some(ApiResponse::Error(e)) && e.deep_view()
                    == error,
                None => read is None,
            },
    {
        match T::from_json(doc) {
            Some(value) => Some(ApiResponse::Success(value)),
            None => match ApiError::from_json(doc) {
                Some(error) => Some(ApiResponse::Error(error)),
                None => None,
            },
        }
    }
}

/// How a request asks.
#[derive(Debug, Clone, Copy, PartialEq, Eq, Structural)]
pub enum Method {
    Get,
    Post,
    Patch,
    Delete,
}

impl Method {
    /// The method's name in HTTP.
    pub open spec fn name_text(self) -> Seq<char> {
        match self {
            Method::Get => "GET"@,
            Method::Post => "POST"@,
            Method::Patch => "PATCH"@,
            Method::Delete => "DELETE"@,
        }
    }

    /// The method's name in HTTP.
    pub fn name(&self) -> (text: &'static str)
        ensures
            text@ == self.name_text(),
    {
        match self {
            Method::Get => "GET",
            Method::Post => "POST",
            Method::Patch => "PATCH",
            Method::Delete => "DELETE",
        }
    }
}

/// A request, ready to be sent.
#[derive(Debug, PartialEq, Eq)]
pub struct Request {
    pub method: Method,
    pub url: String,
    /// The headers, each a name and a value.
    pub headers: Vec<(String, String)>,
    /// The body: always a JSON text.
    pub body: String,
}

/// What came back for a request.
#[derive(Debug, PartialEq, Eq)]
pub struct Reply {
    /// The HTTP status.
    pub status: u16,
    /// The body, as it arrived.
    pub body: Vec<u8>,
}

impl Reply {
    /// Whether the status tells of success: 200 up to 299.
    pub open spec fn succeeded(self) -> bool {
        200 <= self.status < 300
    }

    /// Whether the status tells of success.
    pub fn is_success(&self) -> (yes: bool)
        ensures
            yes == self.succeeded(),
    {
        200 <= self.status && self.status < 300
    }
}

/// The header that tells of a JSON body.
pub open spec fn content_type() -> (Seq<char>, Seq<char>) {
    ("content-type"@, "application/json"@)
}

/// The text of the body that is sent: that of the body given, or that of an
/// object without members where none is given.
pub open spec fn body_text<S: ToJson>(body: Option<S>) -> Seq<char> {
    match body {
        Some(payload) => json_text(payload.json()),
        None => json_text(JsonValue::Object(Seq::empty())),
    }
}

/// Makes the request that asks `url` with `method`. It carries the client's
/// headers, then the header that tells of a JSON body; its body is `body`, or
/// an empty object where there is none.
pub fn request<S: ToJson>(client: &Client, method: Method, url: &str, body: Option<S>) -> (request:
    Request)
    ensures
        request.method == method,
        request.url@ == url@,
        request.headers.deep_view() == client.header_values().push(content_type()),
        request.body@ == body_text(body),
{
    let mut headers = client.headers();
    let ghost before = headers.deep_view();
    headers.push(("content-type".to_owned(), "application/json".to_owned()));
    assert(headers.deep_view() =~= before.push(content_type()));
    let text = match &body {
        Some(payload) => payload.to_json().to_text(),
        None => (NilType {  }).to_json().to_text(),
    };
    Request { method, url: url.to_owned(), headers, body: text }
}

/// What a body says when it is read as a `D` or as an error of the service:
/// nothing where it is no JSON or has neither shape.
pub open spec fn answer<D: FromJson>(body: Seq<u8>) -> Option<Result<D::V, ApiErrorView>> {
    match json_document(body) {
        Some(doc) => either::<D>(doc),
        None => None,
    }
}

/// Whether `result` is what `outcome` means for a request that asks for a `D`,
/// of which the caller wants what `pick` takes. A failure of the transport
/// stays one. Otherwise the body decides, whatever the status: read as a `D`,
/// it gives what was asked for; read as an error of the service, it gives that
/// error; where it is neither, nor any JSON, the result is [`Error::Serde`].
pub open spec fn means<D: FromJson, R: DeepView>(
    outcome: Result<Reply, String>,
    pick: spec_fn(D::V) -> R::V,
    result: Result<R, Error>,
) -> bool {
    match outcome {
        Err(failure) => result == Err::<R, Error>(Error::Reqwest(failure)),
        Ok(reply) => match answer::<D>(reply.body@) {
            Some(Ok(value)) => result matches Ok(x) && x.deep_view() == pick(value),
            Some(Err(error)) => result matches Err(Error::Api(e)) && e.deep_view() == error,
            None => result matches Err(Error::Serde(_)),
        },
    }
}

/// Says what the outcome of a request means, for a request that asks for a
/// `D`.
pub fn response<D: FromJson>(outcome: Result<Reply, String>) -> (result: Result<D, Error>)
    ensures
        means::<D, D>(outcome, |value: D::V| value, result),
{
    let reply = match outcome {
        Ok(reply) => reply,
        Err(failure) => {
            return Err(Error::Reqwest(failure));
        },
    };
    let doc = match Json::parse(reply.body.as_slice()) {
        Ok(doc) => doc,
        Err(reason) => {
            return Err(Error::Serde(reason));
        },
    };
    match ApiResponse::<D>::from_json(&doc) {
        Some(read) => read.into(),
        None => Err(Error::Serde("the body is neither what was asked for nor an error".to_owned())),
    }
}

/// What the body of a failed request says: the error of the service, or
/// nothing where it is no JSON or no such error.
pub open spec fn complaint(body: Seq<u8>) -> Option<ApiErrorView> {
    match json_document(body) {
        Some(doc) => ApiError::of_json(doc),
        None => None,
    }
}

/// Whether `result` is what `outcome` means for a request that asks for
/// nothing. A failure of the transport stays one. A status of success is
/// success, whatever the body. Any other status is an error: the one that the
/// body reports, or [`Error::Serde`] where it reports none.
pub open spec fn means_done(outcome: Result<Reply, String>, result: Result<(), Error>) -> bool {
    match outcome {
        Err(failure) => result == Err::<(), Error>(Error::Reqwest(failure)),
        Ok(reply) => if reply.succeeded() {
            result is Ok
        } else {
            match complaint(reply.body@) {
                Some(error) => result matches Err(Error::Api(e)) && e.deep_view() == error,
                None => result matches Err(Error::Serde(_)),
            }
        },
    }
}

/// Says what the outcome of a request means, for a request that asks for
/// nothing.
pub fn response_noret(outcome: Result<Reply, String>) -> (result: Result<(), Error>)
    ensures
        means_done(outcome, result),
{
    let reply = match outcome {
        Ok(reply) => reply,
        Err(failure) => {
            return Err(Error::Reqwest(failure));
        },
    };
    if reply.is_success() {
        return Ok(());
    }
    let doc = match Json::parse(reply.body.as_slice()) {
        Ok(doc) => doc,
        Err(reason) => {
            return Err(Error::Serde(reason));
        },
    };
    match ApiError::from_json(&doc) {
        Some(error) => Err(Error::Api(error)),
        None => Err(Error::Serde("the body is no error of the service".to_owned())),
    }
}

/// A request without a body is sent with the body `{}`.
pub proof fn lemma_no_body_is_an_empty_object()
    ensures
        body_text::<NilType>(None) == "{}"@,
        (NilType {  }).json() == JsonValue::Object(Seq::empty()),
{
    reveal_strlit("{");
    reveal_strlit("}");
    reveal_strlit("{}");
    assert(crate::json::members_text(Seq::empty()) =~= Seq::<char>::empty());
    assert(json_text(JsonValue::Object(Seq::empty())) =~= "{}"@);
}

/// A failure of the transport is never taken for anything else: the result is
/// that failure, and neither an error of reading nor one of the service.
pub proof fn lemma_transport_failure_stays<D: FromJson, R: DeepView>(
    failure: String,
    pick: spec_fn(D::V) -> R::V,
    result: Result<R, Error>,
)
    requires
        means::<D, R>(Err(failure), pick, result),
    ensures
        result == Err::<R, Error>(Error::Reqwest(failure)),
        !(result matches Err(Error::Serde(_))),
        !(result matches Err(Error::Api(_))),
        !(result matches Err(Error::InvalidToken)),
{
}

/// The same for a request that asks for nothing.
pub proof fn lemma_transport_failure_stays_done(failure: String, result: Result<(), Error>)
    requires
        means_done(Err(failure), result),
    ensures
        result == Err::<(), Error>(Error::Reqwest(failure)),
        !(result matches Err(Error::Serde(_))),
        !(result matches Err(Error::Api(_))),
        !(result matches Err(Error::InvalidToken)),
{
}

/// What was asked for comes first: a body that reads as a `D` is never taken
/// for an error of the service, whatever else it would read as.
pub proof fn lemma_success_comes_first<D: FromJson>(doc: JsonValue)
    requires
        D::of_json(doc) is Some,
    ensures
        either::<D>(doc) == Some(Ok::<D::V, ApiErrorView>(D::of_json(doc)->0)),
{
}

/// A request that asks for nothing and is answered with a status of success
/// has succeeded, whatever the body holds.
pub proof fn lemma_success_status_is_enough(reply: Reply, result: Result<(), Error>)
    requires
        reply.succeeded(),
        means_done(Ok(reply), result),
    ensures
        result is Ok,
{
}

} // verus!
