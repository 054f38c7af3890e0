//! The client: who asks, and what can be asked.

use vstd::prelude::*;
use vstd::string::StringSliceAdditionalSpecFns;
use crate::account::{Organization, OrganizationView, Token, TokenView, User, UserView};
use crate::compute::{Server, ServerOptions, ServerView};
use crate::error::Error;
use crate::ids::{TokenId, UserId};
use crate::json::{Json, JsonValue, Member, MemberValue, json_text, lemma_object_view};
use crate::shape::{FromJson, ToJson, field, required};
use crate::utils::{
    Account, Compute, Endpoint, Method, NilType, Region, Reply, Request, content_type, means,
    means_done, request, response, response_noret, url, url_text,
};

verus! {

/// Whether a byte may stand in the value of an HTTP header: anything from 32
/// up but 127, and the tab.
pub open spec fn header_byte_ok(b: u8) -> bool {
    (b >= 32 && b != 127) || b == 9
}

/// Whether every byte of a text may stand in the value of an HTTP header.
pub open spec fn header_value_ok(bytes: Seq<u8>) -> bool {
    forall|i: int| 0 <= i < bytes.len() ==> header_byte_ok(#[trigger] bytes[i])
}

/// Whether a character may stand in the value of an HTTP header: any but the
/// control characters, which are those below the space, other than the tab,
/// and the one numbered 127.
pub open spec fn header_char_ok(c: char) -> bool {
    (' ' <= c && c != '\u{7f}') || c == '\t'
}

/// Whether a text may be the value of an HTTP header: whether each of its
/// characters may stand there.
pub open spec fn fits_header(text: Seq<char>) -> bool {
    forall|i: int| 0 <= i < text.len() ==> header_char_ok(#[trigger] text[i])
}

/// The bytes that encode one character may stand in a header exactly when the
/// character may: a character of ASCII is its own byte, and the bytes of any
/// other are all 128 or more.
proof fn lemma_header_char_bytes(c: char)
    ensures
        header_value_ok(vstd::utf8::encode_scalar(c as u32)) <==> header_char_ok(c),
{
    let s = c as u32;
    let bytes = vstd::utf8::encode_scalar(s);
    if vstd::utf8::has_width_1_encoding(s) {
        assert(s <= 0x7F ==> (s & 0x7F) == s) by (bit_vector);
        assert(bytes[0] == s as u8);
        if header_char_ok(c) {
            assert forall|i: int| 0 <= i < bytes.len() implies header_byte_ok(
                #[trigger] bytes[i],
            ) by {
                assert(bytes[i] == bytes[0]);
            }
        }
        if header_value_ok(bytes) {
            assert(header_byte_ok(bytes[0]));
        }
    } else {
        assert(forall|x: u8| #![auto] (0x80u8 | x) >= 0x80) by (bit_vector);
        assert(forall|x: u8| #![auto] (0xC0u8 | x) >= 0x80) by (bit_vector);
        assert(forall|x: u8| #![auto] (0xE0u8 | x) >= 0x80) by (bit_vector);
        assert(forall|x: u8| #![auto] (0xF0u8 | x) >= 0x80) by (bit_vector);
        assert forall|i: int| 0 <= i < bytes.len() implies header_byte_ok(#[trigger] bytes[i]) by {
            assert(bytes[i] >= 0x80);
        }
        assert(s >= 0x80);
    }
}

/// A text may be the value of an HTTP header exactly when each byte of its
/// encoding may stand there.
pub proof fn lemma_fits_header(text: Seq<char>)
    ensures
        fits_header(text) <==> header_value_ok(vstd::utf8::encode_utf8(text)),
    decreases text.len(),
{
    let bytes = vstd::utf8::encode_utf8(text);
    if text.len() > 0 {
        let first = vstd::utf8::encode_scalar(text[0] as u32);
        let rest = vstd::utf8::encode_utf8(text.drop_first());
        lemma_header_char_bytes(text[0]);
        lemma_fits_header(text.drop_first());
        assert(bytes == first + rest);
        if fits_header(text) {
            assert(header_char_ok(text[0]));
            assert forall|i: int| 0 <= i < text.drop_first().len() implies header_char_ok(
                #[trigger] text.drop_first()[i],
            ) by {
                assert(text.drop_first()[i] == text[i + 1]);
            }
            assert forall|i: int| 0 <= i < bytes.len() implies header_byte_ok(
                #[trigger] bytes[i],
            ) by {
                if i < first.len() {
                    assert(bytes[i] == first[i]);
                } else {
                    assert(bytes[i] == rest[i - first.len()]);
                }
            }
        }
        if header_value_ok(bytes) {
            assert forall|i: int| 0 <= i < first.len() implies header_byte_ok(
                #[trigger] first[i],
            ) by {
                assert(first[i] == bytes[i]);
            }
            assert forall|i: int| 0 <= i < rest.len() implies header_byte_ok(
                #[trigger] rest[i],
            ) by {
                assert(rest[i] == bytes[i + first.len()]);
            }
            assert forall|i: int| 0 <= i < text.len() implies header_char_ok(
                #[trigger] text[i],
            ) by {
                if i > 0 {
                    assert(text[i] == text.drop_first()[i - 1]);
                }
            }
        }
    }
}

/// Calls `reqwest::header::HeaderValue::from_str`, which accepts a text exactly
/// when each of its bytes is at least 32 and not 127, or is a tab. The value
/// itself is dropped: only the verdict is kept.
#[verifier::external_body]
fn check_header_value(text: &str) -> (checked: Result<(), reqwest::header::InvalidHeaderValue>)
    ensures
        checked is Ok <==> header_value_ok(text.spec_bytes()),
{
    reqwest::header::HeaderValue::from_str(text).map(|_| ())
}

/// What is sent to ask for a token.
#[derive(Debug, PartialEq, Eq)]
pub struct Credentials {
    pub email: String,
    pub password: String,
    /// Whether the token is to expire: a token of a session does, a token
    /// that the user makes does not.
    pub expires: bool,
}

impl ToJson for Credentials {
    open spec fn json(&self) -> JsonValue {
        JsonValue::Object(
            seq![
                MemberValue { name: "email"@, value: self.email.json() },
                MemberValue { name: "password"@, value: self.password.json() },
                MemberValue { name: "expires"@, value: self.expires.json() },
            ],
        )
    }

    fn to_json(&self) -> (doc: Json) {
        let mut members: Vec<Member> = Vec::new();
        members.push(Member { name: "email".to_owned(), value: self.email.to_json() });
        members.push(Member { name: "password".to_owned(), value: self.password.to_json() });
        members.push(Member { name: "expires".to_owned(), value: self.expires.to_json() });
        let doc = Json::Object(members);
        proof {
            lemma_object_view(&doc);
            assert(doc@->Object_0 =~= self.json()->Object_0);
        }
        doc
    }
}

/// An SSH key that a user registers.
#[derive(Debug, PartialEq, Eq)]
pub struct NewSshKey {
    pub key: String,
    pub description: Option<String>,
}

impl ToJson for NewSshKey {
    open spec fn json(&self) -> JsonValue {
        JsonValue::Object(
            seq![
                MemberValue { name: "key"@, value: self.key.json() },
                MemberValue { name: "description"@, value: self.description.json() },
            ],
        )
    }

    fn to_json(&self) -> (doc: Json) {
        let mut members: Vec<Member> = Vec::new();
        members.push(Member { name: "key".to_owned(), value: self.key.to_json() });
        members.push(Member { name: "description".to_owned(), value: self.description.to_json() });
        let doc = Json::Object(members);
        proof {
            lemma_object_view(&doc);
            assert(doc@->Object_0 =~= self.json()->Object_0);
        }
        doc
    }
}

/// What is sent to replace the SSH keys of a user.
#[derive(Debug, PartialEq, Eq)]
pub struct SshKeys {
    pub ssh_public_keys: Vec<NewSshKey>,
}

impl ToJson for SshKeys {
    open spec fn json(&self) -> JsonValue {
        JsonValue::Object(
            seq![
                MemberValue { name: "ssh_public_keys"@, value: self.ssh_public_keys.json() },
            ],
        )
    }

    fn to_json(&self) -> (doc: Json) {
        let mut members: Vec<Member> = Vec::new();
        members.push(
            Member { name: "ssh_public_keys".to_owned(), value: self.ssh_public_keys.to_json() },
        );
        let doc = Json::Object(members);
        proof {
            lemma_object_view(&doc);
            assert(doc@->Object_0 =~= self.json()->Object_0);
        }
        doc
    }
}

/// A token that was just made: the token, and beside its members its
/// identifier and its secret key.
#[derive(Debug, PartialEq, Eq)]
pub struct CreatedToken {
    pub id: TokenId,
    pub token: Token,
    pub secret_key: TokenId,
}

/// The value of a token that was just made.
pub struct CreatedTokenView {
    pub id: Seq<char>,
    pub token: TokenView,
    pub secret_key: Seq<char>,
}

impl DeepView for CreatedToken {
    type V = CreatedTokenView;

    open spec fn deep_view(&self) -> CreatedTokenView {
        CreatedTokenView {
            id: self.id.deep_view(),
            token: self.token.deep_view(),
            secret_key: self.secret_key.deep_view(),
        }
    }
}

impl FromJson for CreatedToken {
    open spec fn of_json(doc: JsonValue) -> Option<CreatedTokenView> {
        if required::<TokenId>(doc.get("id"@)) is Some && Token::of_json(doc) is Some
            && required::<TokenId>(doc.get("secret_key"@)) is Some {
            Some(
                CreatedTokenView {
                    id: required::<TokenId>(doc.get("id"@))->0,
                    token: Token::of_json(doc)->0,
                    secret_key: required::<TokenId>(doc.get("secret_key"@))->0,
                },
            )
        } else {
            None
        }
    }

    fn from_json(doc: &Json) -> (read: Option<CreatedToken>) {
        let id = field::<TokenId>(doc, "id")?;
        let token = Token::from_json(doc)?;
        let secret_key = field::<TokenId>(doc, "secret_key")?;
        Some(CreatedToken { id, token, secret_key })
    }
}

/// The body that answers a request for a new token.
#[derive(Debug, PartialEq, Eq)]
pub struct CreatedTokenReply {
    pub token: CreatedToken,
}

/// The value of such a body.
pub struct CreatedTokenReplyView {
    pub token: CreatedTokenView,
}

impl DeepView for CreatedTokenReply {
    type V = CreatedTokenReplyView;

    open spec fn deep_view(&self) -> CreatedTokenReplyView {
        CreatedTokenReplyView {
            token: self.token.deep_view(),
        }
    }
}

impl CreatedTokenReply {
    /// Whether a document has every member that such a body needs,
    /// each of its own shape.
    pub open spec fn readable(doc: JsonValue) -> bool {
        &&& doc is Object
        &&& required::<CreatedToken>(doc.get("token"@)) is Some
    }
}

impl FromJson for CreatedTokenReply {
    open spec fn of_json(doc: JsonValue) -> Option<CreatedTokenReplyView> {
        if CreatedTokenReply::readable(doc) {
            Some(
                CreatedTokenReplyView {
                    token: required::<CreatedToken>(doc.get("token"@))->0,
                },
            )
        } else {
            None
        }
    }

    fn from_json(doc: &Json) -> (read: Option<CreatedTokenReply>) {
        if !doc.is_object() {
            return None;
        }
        let token = field::<CreatedToken>(doc, "token")?;
        Some(CreatedTokenReply { token })
    }
}

/// The body that answers a request for one token.
#[derive(Debug, PartialEq, Eq)]
pub struct TokenReply {
    pub token: Token,
}

/// The value of such a body.
pub struct TokenReplyView {
    pub token: TokenView,
}

impl DeepView for TokenReply {
    type V = TokenReplyView;

    open spec fn deep_view(&self) -> TokenReplyView {
        TokenReplyView {
            token: self.token.deep_view(),
        }
    }
}

impl TokenReply {
    /// Whether a document has every member that such a body needs,
    /// each of its own shape.
    pub open spec fn readable(doc: JsonValue) -> bool {
        &&& doc is Object
        &&& required::<Token>(doc.get("token"@)) is Some
    }
}

impl FromJson for TokenReply {
    open spec fn of_json(doc: JsonValue) -> Option<TokenReplyView> {
        if TokenReply::readable(doc) {
            Some(
                TokenReplyView {
                    token: required::<Token>(doc.get("token"@))->0,
                },
            )
        } else {
            None
        }
    }

    fn from_json(doc: &Json) -> (read: Option<TokenReply>) {
        if !doc.is_object() {
            return None;
        }
        let token = field::<Token>(doc, "token")?;
        Some(TokenReply { token })
    }
}

/// The body that answers a request for all tokens.
#[derive(Debug, PartialEq, Eq)]
pub struct TokensReply {
    pub tokens: Vec<Token>,
}

/// The value of such a body.
pub struct TokensReplyView {
    pub tokens: Seq<TokenView>,
}

impl DeepView for TokensReply {
    type V = TokensReplyView;

    open spec fn deep_view(&self) -> TokensReplyView {
        TokensReplyView {
            tokens: self.tokens.deep_view(),
        }
    }
}

impl TokensReply {
    /// Whether a document has every member that such a body needs,
    /// each of its own shape.
    pub open spec fn readable(doc: JsonValue) -> bool {
        &&& doc is Object
        &&& required::<Vec<Token>>(doc.get("tokens"@)) is Some
    }
}

impl FromJson for TokensReply {
    open spec fn of_json(doc: JsonValue) -> Option<TokensReplyView> {
        if TokensReply::readable(doc) {
            Some(
                TokensReplyView {
                    tokens: required::<Vec<Token>>(doc.get("tokens"@))->0,
                },
            )
        } else {
            None
        }
    }

    fn from_json(doc: &Json) -> (read: Option<TokensReply>) {
        if !doc.is_object() {
            return None;
        }
        let tokens = field::<Vec<Token>>(doc, "tokens")?;
        Some(TokensReply { tokens })
    }
}

/// The body that answers a request for all organizations.
#[derive(Debug, PartialEq, Eq)]
pub struct OrganizationsReply {
    pub organizations: Vec<Organization>,
}

/// The value of such a body.
pub struct OrganizationsReplyView {
    pub organizations: Seq<OrganizationView>,
}

impl DeepView for OrganizationsReply {
    type V = OrganizationsReplyView;

    open spec fn deep_view(&self) -> OrganizationsReplyView {
        OrganizationsReplyView {
            organizations: self.organizations.deep_view(),
        }
    }
}

impl OrganizationsReply {
    /// Whether a document has every member that such a body needs,
    /// each of its own shape.
    pub open spec fn readable(doc: JsonValue) -> bool {
        &&& doc is Object
        &&& required::<Vec<Organization>>(doc.get("organizations"@)) is Some
    }
}

impl FromJson for OrganizationsReply {
    open spec fn of_json(doc: JsonValue) -> Option<OrganizationsReplyView> {
        if OrganizationsReply::readable(doc) {
            Some(
                OrganizationsReplyView {
                    organizations: required::<Vec<Organization>>(doc.get("organizations"@))->0,
                },
            )
        } else {
            None
        }
    }

    fn from_json(doc: &Json) -> (read: Option<OrganizationsReply>) {
        if !doc.is_object() {
            return None;
        }
        let organizations = field::<Vec<Organization>>(doc, "organizations")?;
        Some(OrganizationsReply { organizations })
    }
}

/// The body that answers a request for one user.
#[derive(Debug, PartialEq, Eq)]
pub struct UserReply {
    pub user: User,
}

/// The value of such a body.
pub struct UserReplyView {
    pub user: UserView,
}

impl DeepView for UserReply {
    type V = UserReplyView;

    open spec fn deep_view(&self) -> UserReplyView {
        UserReplyView {
            user: self.user.deep_view(),
        }
    }
}

impl UserReply {
    /// Whether a document has every member that such a body needs,
    /// each of its own shape.
    pub open spec fn readable(doc: JsonValue) -> bool {
        &&& doc is Object
        &&& required::<User>(doc.get("user"@)) is Some
    }
}

impl FromJson for UserReply {
    open spec fn of_json(doc: JsonValue) -> Option<UserReplyView> {
        if UserReply::readable(doc) {
            Some(
                UserReplyView {
                    user: required::<User>(doc.get("user"@))->0,
                },
            )
        } else {
            None
        }
    }

    fn from_json(doc: &Json) -> (read: Option<UserReply>) {
        if !doc.is_object() {
            return None;
        }
        let user = field::<User>(doc, "user")?;
        Some(UserReply { user })
    }
}

/// The body that answers a request for a new server.
#[derive(Debug, PartialEq, Eq)]
pub struct ServerReply {
    pub server: Server,
}

/// The value of such a body.
pub struct ServerReplyView {
    pub server: ServerView,
}

impl DeepView for ServerReply {
    type V = ServerReplyView;

    open spec fn deep_view(&self) -> ServerReplyView {
        ServerReplyView {
            server: self.server.deep_view(),
        }
    }
}

impl ServerReply {
    /// Whether a document has every member that such a body needs,
    /// each of its own shape.
    pub open spec fn readable(doc: JsonValue) -> bool {
        &&& doc is Object
        &&& required::<Server>(doc.get("server"@)) is Some
    }
}

impl FromJson for ServerReply {
    open spec fn of_json(doc: JsonValue) -> Option<ServerReplyView> {
        if ServerReply::readable(doc) {
            Some(
                ServerReplyView {
                    server: required::<Server>(doc.get("server"@))->0,
                },
            )
        } else {
            None
        }
    }

    fn from_json(doc: &Json) -> (read: Option<ServerReply>) {
        if !doc.is_object() {
            return None;
        }
        let server = field::<Server>(doc, "server")?;
        Some(ServerReply { server })
    }
}

/// The document that asks for a token.
pub open spec fn credentials_document(
    email: Seq<char>,
    password: Seq<char>,
    expires: bool,
) -> JsonValue {
    JsonValue::Object(
        seq![
            MemberValue { name: "email"@, value: JsonValue::Str(email) },
            MemberValue { name: "password"@, value: JsonValue::Str(password) },
            MemberValue { name: "expires"@, value: JsonValue::Bool(expires) },
        ],
    )
}

/// The document that registers one SSH key: the key, and its description or
/// null.
pub open spec fn ssh_key_document(key: (Seq<char>, Option<Seq<char>>)) -> JsonValue {
    JsonValue::Object(
        seq![
            MemberValue { name: "key"@, value: JsonValue::Str(key.0) },
            MemberValue {
                name: "description"@,
                value: match key.1 {
                    Some(description) => JsonValue::Str(description),
                    None => JsonValue::Null,
                },
            },
        ],
    )
}

/// The document that replaces the SSH keys of a user by `keys`, in their
/// order.
pub open spec fn ssh_keys_document(keys: Seq<(Seq<char>, Option<Seq<char>>)>) -> JsonValue {
    JsonValue::Object(
        seq![
            MemberValue {
                name: "ssh_public_keys"@,
                value: JsonValue::Array(Seq::new(keys.len(), |i: int| ssh_key_document(keys[i]))),
            },
        ],
    )
}

/// Whether `request` asks `action` with `method`, carries `headers` and then
/// the header of a JSON body, and has the text of `body` as its body.
pub open spec fn asks(
    request: Request,
    headers: Seq<(Seq<char>, Seq<char>)>,
    method: Method,
    action: Endpoint,
    body: JsonValue,
) -> bool {
    &&& request.method == method
    &&& request.url@ == url_text(action)
    &&& request.headers.deep_view() == headers.push(content_type())
    &&& request.body@ == json_text(body)
}

/// The body of a request that has nothing to say.
pub open spec fn nothing() -> JsonValue {
    JsonValue::Object(Seq::empty())
}

/// Who asks: the token that every request carries, or nobody yet.
#[derive(Debug, PartialEq, Eq)]
pub struct Client {
    token: Option<TokenId>,
}

impl Client {
    /// The token that the client was made with.
    pub closed spec fn token_text(self) -> Option<Seq<char>> {
        match self.token {
            Some(token) => Some(token@),
            None => None,
        }
    }

    /// The headers that every request of the client carries: the token under
    /// `x-auth-token`, where there is one.
    pub open spec fn header_values(self) -> Seq<(Seq<char>, Seq<char>)> {
        match self.token_text() {
            Some(token) => seq![("x-auth-token"@, token)],
            None => Seq::empty(),
        }
    }

    /// A client without a token, for the one request that needs none: asking
    /// for a token.
    pub fn anonymous() -> (client: Client)
        ensures
            client.token_text() is None,
    {
        Client { token: None }
    }

    /// A client for the holder of `token`. The token is refused where one of
    /// its characters cannot stand in an HTTP header.
    pub fn from_token(token: &TokenId) -> (made: Result<Client, Error>)
        ensures
            match made {
                Ok(client) => fits_header(token@) && client.token_text() == Some(token@),
                Err(error) => !fits_header(token@) && error == Error::InvalidToken,
            },
    {
        proof {
            lemma_fits_header(token@);
        }
        match check_header_value(token.as_str()) {
            Ok(()) => Ok(Client { token: Some(token.clone()) }),
            Err(e) => Err(Error::from(e)),
        }
    }

    /// The token that the client was made with.
    pub fn own_token(&self) -> (token: Option<&TokenId>)
        ensures
            match token {
                Some(t) => self.token_text() == Some(t@),
                None => self.token_text() is None,
            },
    {
        self.token.as_ref()
    }

    /// The headers that every request of the client carries.
    pub fn headers(&self) -> (headers: Vec<(String, String)>)
        ensures
            headers.deep_view() == self.header_values(),
    {
        let mut headers: Vec<(String, String)> = Vec::new();
        match &self.token {
            Some(token) => {
                headers.push(("x-auth-token".to_owned(), token.as_str().to_owned()));
                assert(headers.deep_view() =~= self.header_values());
            },
            None => {
                assert(headers.deep_view() =~= self.header_values());
            },
        }
        headers
    }

    /// The request that makes a token of a session for a user, from which a
    /// client for that user is made: see [`Client::from_user_result`].
    pub fn from_user(email: &str, password: &str) -> (request: Request)
        ensures
            asks(
                request,
                Seq::empty(),
                Method::Post,
                Endpoint::Account(Account::Tokens),
                credentials_document(email@, password@, true),
            ),
    {
        Client::anonymous().create_token(email, password, true)
    }

    /// The client for the user whose token the reply holds: the identifier of
    /// the new token is the token that the client carries.
    pub fn from_user_result(outcome: Result<Reply, String>) -> (result: Result<Client, Error>)
        ensures
            match outcome {
                Err(failure) => result == Err::<Client, Error>(Error::Reqwest(failure)),
                Ok(reply) => match crate::utils::answer::<CreatedTokenReply>(reply.body@) {
                    Some(Ok(value)) => if fits_header(value.token.id) {
                        result matches Ok(client) && client.token_text() == Some(value.token.id)
                    } else {
                        result matches Err(Error::InvalidToken)
                    },
                    Some(Err(error)) => result matches Err(Error::Api(e)) && e.deep_view() == error,
                    None => result matches Err(Error::Serde(_)),
                },
            },
    {
        match Client::create_token_result(outcome) {
            Ok((id, _)) => Client::from_token(&id),
            Err(error) => Err(error),
        }
    }

    /// The request that makes a token for a user, who proves who they are by
    /// an email address and a password. With `expires` the token is one of a
    /// session, which expires unless it is renewed; without, it is one that
    /// the user made, which does not.
    pub fn create_token(&self, email: &str, password: &str, expires: bool) -> (request: Request)
        ensures
            asks(
                request,
                self.header_values(),
                Method::Post,
                Endpoint::Account(Account::Tokens),
                credentials_document(email@, password@, expires),
            ),
    {
        let body = Credentials { email: email.to_owned(), password: password.to_owned(), expires };
        assert(body.json()->Object_0 =~= credentials_document(
            email@,
            password@,
            expires,
        )->Object_0);
        let address = url(Endpoint::Account(Account::Tokens));
        request(self, Method::Post, address.as_str(), Some(body))
    }

    /// The new token with its identifier.
    pub fn create_token_result(outcome: Result<Reply, String>) -> (result: Result<
        (TokenId, Token),
        Error,
    >)
        ensures
            means::<CreatedTokenReply, (TokenId, Token)>(
                outcome,
                |value: CreatedTokenReplyView| (value.token.id, value.token.token),
                result,
            ),
    {
        match response::<CreatedTokenReply>(outcome) {
            Ok(reply) => Ok((reply.token.id, reply.token.token)),
            Err(error) => Err(error),
        }
    }

    /// The request that lists the tokens of the account.
    pub fn tokens(&self) -> (request: Request)
        ensures
            asks(
                request,
                self.header_values(),
                Method::Get,
                Endpoint::Account(Account::Tokens),
                nothing(),
            ),
    {
        let address = url(Endpoint::Account(Account::Tokens));
        request::<NilType>(self, Method::Get, address.as_str(), None)
    }

    /// The tokens of the account.
    pub fn tokens_result(outcome: Result<Reply, String>) -> (result: Result<Vec<Token>, Error>)
        ensures
            means::<TokensReply, Vec<Token>>(
                outcome,
                |value: TokensReplyView| value.tokens,
                result,
            ),
    {
        match response::<TokensReply>(outcome) {
            Ok(reply) => Ok(reply.tokens),
            Err(error) => Err(error),
        }
    }

    /// The request that shows one token.
    pub fn token(&self, id: &TokenId) -> (request: Request)
        ensures
            asks(
                request,
                self.header_values(),
                Method::Get,
                Endpoint::Account(Account::Token(*id)),
                nothing(),
            ),
    {
        let address = url(Endpoint::Account(Account::Token(id.clone())));
        request::<NilType>(self, Method::Get, address.as_str(), None)
    }

    /// The token.
    pub fn token_result(outcome: Result<Reply, String>) -> (result: Result<Token, Error>)
        ensures
            means::<TokenReply, Token>(outcome, |value: TokenReplyView| value.token, result),
    {
        match response::<TokenReply>(outcome) {
            Ok(reply) => Ok(reply.token),
            Err(error) => Err(error),
        }
    }

    /// The request that has a token expire 30 minutes later. The service
    /// reports an error for a token that does not expire.
    pub fn renew_token(&self, id: &TokenId) -> (request: Request)
        ensures
            asks(
                request,
                self.header_values(),
                Method::Patch,
                Endpoint::Account(Account::Token(*id)),
                nothing(),
            ),
    {
        let address = url(Endpoint::Account(Account::Token(id.clone())));
        request::<NilType>(self, Method::Patch, address.as_str(), None)
    }

    /// The token as it is after it was renewed.
    pub fn renew_token_result(outcome: Result<Reply, String>) -> (result: Result<Token, Error>)
        ensures
            means::<TokenReply, Token>(outcome, |value: TokenReplyView| value.token, result),
    {
        match response::<TokenReply>(outcome) {
            Ok(reply) => Ok(reply.token),
            Err(error) => Err(error),
        }
    }

    /// The request that deletes a token.
    pub fn delete_token(&self, id: &TokenId) -> (request: Request)
        ensures
            asks(
                request,
                self.header_values(),
                Method::Delete,
                Endpoint::Account(Account::Token(*id)),
                nothing(),
            ),
    {
        let address = url(Endpoint::Account(Account::Token(id.clone())));
        request::<NilType>(self, Method::Delete, address.as_str(), None)
    }

    /// Whether the token was deleted.
    pub fn delete_token_result(outcome: Result<Reply, String>) -> (result: Result<(), Error>)
        ensures
            means_done(outcome, result),
    {
        response_noret(outcome)
    }

    /// The request that lists the organizations of the account.
    pub fn organizations(&self) -> (request: Request)
        ensures
            asks(
                request,
                self.header_values(),
                Method::Get,
                Endpoint::Account(Account::Organizations),
                nothing(),
            ),
    {
        let address = url(Endpoint::Account(Account::Organizations));
        request::<NilType>(self, Method::Get, address.as_str(), None)
    }

    /// The organizations of the account.
    pub fn organizations_result(outcome: Result<Reply, String>) -> (result: Result<
        Vec<Organization>,
        Error,
    >)
        ensures
            means::<OrganizationsReply, Vec<Organization>>(
                outcome,
                |value: OrganizationsReplyView| value.organizations,
                result,
            ),
    {
        match response::<OrganizationsReply>(outcome) {
            Ok(reply) => Ok(reply.organizations),
            Err(error) => Err(error),
        }
    }

    /// The request that shows one user.
    pub fn user(&self, id: &UserId) -> (request: Request)
        ensures
            asks(
                request,
                self.header_values(),
                Method::Get,
                Endpoint::Account(Account::Users(*id)),
                nothing(),
            ),
    {
        let address = url(Endpoint::Account(Account::Users(id.clone())));
        request::<NilType>(self, Method::Get, address.as_str(), None)
    }

    /// The user.
    pub fn user_result(outcome: Result<Reply, String>) -> (result: Result<User, Error>)
        ensures
            means::<UserReply, User>(outcome, |value: UserReplyView| value.user, result),
    {
        match response::<UserReply>(outcome) {
            Ok(reply) => Ok(reply.user),
            Err(error) => Err(error),
        }
    }

    /// The request that replaces the SSH keys of a user by `keys`, each a key
    /// and, where it has one, its description.
    pub fn update_ssh_keys(
        &self,
        keys: Vec<(String, Option<String>)>,
        user_id: &UserId,
    ) -> (request: Request)
        ensures
            asks(
                request,
                self.header_values(),
                Method::Patch,
                Endpoint::Account(Account::Users(*user_id)),
                ssh_keys_document(keys.deep_view()),
            ),
    {
        let ghost given = keys.deep_view();
        let mut list: Vec<NewSshKey> = Vec::new();
        let mut i: usize = 0;
        while i < keys.len()
            invariant
                i <= keys@.len(),
                list@.len() == i,
                given == keys.deep_view(),
                forall|k: int|
                    0 <= k < i ==> (#[trigger] list@[k]).json() == ssh_key_document(given[k]),
            decreases keys.len() - i,
        {
            let key = NewSshKey { key: keys[i].0.clone(), description: keys[i].1.clone() };
            proof {
                assert(given[i as int] == keys@[i as int].deep_view());
                assert(key.json()->Object_0 =~= ssh_key_document(given[i as int])->Object_0);
            }
            list.push(key);
            i += 1;
        }
        let body = SshKeys { ssh_public_keys: list };
        proof {
            assert(body.ssh_public_keys.json()->Array_0 =~= Seq::new(
                given.len(),
                |i: int| ssh_key_document(given[i]),
            ));
            assert(body.json()->Object_0 =~= ssh_keys_document(given)->Object_0);
        }
        let address = url(Endpoint::Account(Account::Users(user_id.clone())));
        request(self, Method::Patch, address.as_str(), Some(body))
    }

    /// The user as they are after their SSH keys were replaced.
    pub fn update_ssh_keys_result(outcome: Result<Reply, String>) -> (result: Result<User, Error>)
        ensures
            means::<UserReply, User>(outcome, |value: UserReplyView| value.user, result),
    {
        match response::<UserReply>(outcome) {
            Ok(reply) => Ok(reply.user),
            Err(error) => Err(error),
        }
    }

    /// The request that makes a server in a region.
    pub fn create_server(&self, region: Region, opts: ServerOptions) -> (request: Request)
        ensures
            asks(
                request,
                self.header_values(),
                Method::Post,
                Endpoint::Compute(region, Compute::Servers),
                opts.json(),
            ),
    {
        let address = url(Endpoint::Compute(region, Compute::Servers));
        request(self, Method::Post, address.as_str(), Some(opts))
    }

    /// The new server.
    pub fn create_server_result(outcome: Result<Reply, String>) -> (result: Result<Server, Error>)
        ensures
            means::<ServerReply, Server>(outcome, |value: ServerReplyView| value.server, result),
    {
        match response::<ServerReply>(outcome) {
            Ok(reply) => Ok(reply.server),
            Err(error) => Err(error),
        }
    }
}

} // verus!
