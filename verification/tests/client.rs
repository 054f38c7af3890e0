use scaleway::{
    ApiErrorType, BootType, Client, CommercialType, Error, ImageId, Method, OrganizationId, Region,
    Reply, Request, ServerOptions, TokenCategory, TokenId, UserId,
};

fn reply(status: u16, body: &str) -> Result<Reply, String> {
    Ok(Reply { status, body: body.as_bytes().to_vec() })
}

fn signed() -> Client {
    Client::from_token(&TokenId::from("s3cr3t")).unwrap()
}

fn signed_headers() -> Vec<(String, String)> {
    vec![
        ("x-auth-token".to_string(), "s3cr3t".to_string()),
        ("content-type".to_string(), "application/json".to_string()),
    ]
}

fn check(request: &Request, method: Method, url: &str, body: &str) {
    assert_eq!(request.method, method);
    assert_eq!(request.url, url);
    assert_eq!(request.headers, signed_headers());
    assert_eq!(request.body, body);
}

const CREATED: &str = r#"{"token":{"id":"new-id","secret_key":"sk","access_key":"k","category":"session","user_id":"u1","description":"","inherits_user_perms":true,"creation_ip":"1.2.3.4","expires":"2020-01-01T01:00:00+00:00","creation_date":"2020-01-01T00:00:00+00:00"}}"#;

#[test]
fn from_token_keeps_the_token() {
    let client = Client::from_token(&TokenId::from("abc")).unwrap();
    assert_eq!(client.own_token().map(|t| t.as_str()), Some("abc"));
    assert_eq!(client.headers(), vec![("x-auth-token".to_string(), "abc".to_string())]);
}

#[test]
fn from_token_accepts_what_fits_a_header() {
    assert!(Client::from_token(&TokenId::from("")).is_ok());
    assert!(Client::from_token(&TokenId::from("with space and\ttab")).is_ok());
    assert!(Client::from_token(&TokenId::from("~!@#$%^&*()")).is_ok());
    assert!(Client::from_token(&TokenId::from("caf\u{e9}")).is_ok());
}

#[test]
fn from_token_refuses_control_characters() {
    assert!(matches!(Client::from_token(&TokenId::from("a\nb")), Err(Error::InvalidToken)));
    assert!(matches!(Client::from_token(&TokenId::from("a\rb")), Err(Error::InvalidToken)));
    assert!(matches!(Client::from_token(&TokenId::from("\u{0}")), Err(Error::InvalidToken)));
    assert!(matches!(Client::from_token(&TokenId::from("a\u{1f}")), Err(Error::InvalidToken)));
    assert!(matches!(Client::from_token(&TokenId::from("a\u{7f}")), Err(Error::InvalidToken)));
}

#[test]
fn anonymous_client_has_no_token() {
    let client = Client::anonymous();
    assert_eq!(client.own_token(), None);
    assert!(client.headers().is_empty());
}

#[test]
fn from_user_asks_for_a_session_token_without_a_token() {
    let request = Client::from_user("a@b.c", "pass");
    assert_eq!(request.method, Method::Post);
    assert_eq!(request.url, "https://account.scaleway.com/tokens");
    assert_eq!(request.headers, vec![("content-type".to_string(), "application/json".to_string())]);
    assert_eq!(request.body, r#"{"email":"a@b.c","password":"pass","expires":true}"#);
}

#[test]
fn from_user_result_makes_a_client_of_the_new_token() {
    let client = Client::from_user_result(reply(200, CREATED)).unwrap();
    assert_eq!(client.own_token().map(|t| t.as_str()), Some("new-id"));
}

#[test]
fn from_user_result_fails_as_the_reply_does() {
    assert!(matches!(
        Client::from_user_result(reply(401, r#"{"message":"no","type":"invalid_auth"}"#)),
        Err(Error::Api(_))
    ));
    assert!(matches!(Client::from_user_result(reply(200, "nonsense")), Err(Error::Serde(_))));
    let bad = CREATED.replace("new-id", "new\\nid");
    assert!(matches!(Client::from_user_result(reply(200, &bad)), Err(Error::InvalidToken)));
}

#[test]
fn create_token_request() {
    let request = signed().create_token("a@b.c", "p\"w\\", false);
    check(
        &request,
        Method::Post,
        "https://account.scaleway.com/tokens",
        r#"{"email":"a@b.c","password":"p\"w\\","expires":false}"#,
    );
}

#[test]
fn create_token_result_gives_identifier_and_token() {
    let (id, token) = Client::create_token_result(reply(201, CREATED)).unwrap();
    assert_eq!(id.as_str(), "new-id");
    assert_eq!(token.access_key.as_str(), "k");
    assert_eq!(token.category, TokenCategory::Session);
    assert!(token.expires.is_some());
}

#[test]
fn create_token_result_needs_identifier_and_secret() {
    let no_id = CREATED.replace("\"id\":\"new-id\",", "");
    assert!(matches!(Client::create_token_result(reply(201, &no_id)), Err(Error::Serde(_))));
    let no_secret = CREATED.replace("\"secret_key\":\"sk\",", "");
    assert!(matches!(Client::create_token_result(reply(201, &no_secret)), Err(Error::Serde(_))));
}

#[test]
fn tokens_request_and_result() {
    check(&signed().tokens(), Method::Get, "https://account.scaleway.com/tokens", "{}");
    let one = r#"{"access_key":"k","category":"session","user_id":"u1","description":"d","inherits_user_perms":true,"creation_ip":"1.2.3.4","creation_date":"2020-01-01T00:00:00+00:00"}"#;
    let body = format!(r#"{{"tokens":[{},{}]}}"#, one, one.replace("\"k\"", "\"k2\""));
    let tokens = Client::tokens_result(reply(200, &body)).unwrap();
    assert_eq!(tokens.len(), 2);
    assert_eq!(tokens[0].access_key.as_str(), "k");
    assert_eq!(tokens[1].access_key.as_str(), "k2");
    assert_eq!(Client::tokens_result(reply(200, r#"{"tokens":[]}"#)).unwrap().len(), 0);
    assert!(matches!(Client::tokens_result(reply(200, r#"{"tokens":[{}]}"#)), Err(Error::Serde(_))));
    assert!(matches!(Client::tokens_result(reply(200, r#"{"tokens":null}"#)), Err(Error::Serde(_))));
}

#[test]
fn token_request() {
    check(
        &signed().token(&TokenId::from("t-1")),
        Method::Get,
        "https://account.scaleway.com/tokens/t-1",
        "{}",
    );
}

#[test]
fn renew_token_request() {
    check(
        &signed().renew_token(&TokenId::from("t-1")),
        Method::Patch,
        "https://account.scaleway.com/tokens/t-1",
        "{}",
    );
}

#[test]
fn renew_token_without_expiry_is_an_api_error() {
    let body = r#"{"message":"Token has no expiration date","type":"invalid_request_error"}"#;
    match Client::renew_token_result(reply(400, body)) {
        Err(Error::Api(e)) => {
            assert_eq!(e.kind, ApiErrorType::InvalidRequestError);
            assert_eq!(e.message, "Token has no expiration date");
        }
        other => panic!("unexpected: {:?}", other),
    }
}

#[test]
fn renew_token_result_gives_the_token() {
    let body = CREATED.replace("\"id\":\"new-id\",\"secret_key\":\"sk\",", "");
    let token = Client::renew_token_result(reply(200, &body)).unwrap();
    assert!(token.expires.is_some());
}

#[test]
fn delete_token_request() {
    check(
        &signed().delete_token(&TokenId::from("t-1")),
        Method::Delete,
        "https://account.scaleway.com/tokens/t-1",
        "{}",
    );
}

#[test]
fn delete_token_twice() {
    assert!(Client::delete_token_result(reply(204, "")).is_ok());
    let gone = r#"{"message":"\"t-1\" not found","type":"unknown_resource"}"#;
    match Client::delete_token_result(reply(404, gone)) {
        Err(Error::Api(e)) => assert_eq!(e.kind, ApiErrorType::UnknownResource),
        other => panic!("unexpected: {:?}", other),
    }
    assert!(Client::delete_token_result(reply(204, "")).is_ok());
}

#[test]
fn organizations_request() {
    check(&signed().organizations(), Method::Get, "https://account.scaleway.com/organizations", "{}");
}

#[test]
fn user_request() {
    check(
        &signed().user(&UserId::from("u-7")),
        Method::Get,
        "https://account.scaleway.com/users/u-7",
        "{}",
    );
}

#[test]
fn update_ssh_keys_request() {
    let keys = vec![
        ("ssh-rsa AAA".to_string(), Some("laptop".to_string())),
        ("ssh-ed25519 BBB".to_string(), None),
    ];
    check(
        &signed().update_ssh_keys(keys, &UserId::from("u-7")),
        Method::Patch,
        "https://account.scaleway.com/users/u-7",
        r#"{"ssh_public_keys":[{"key":"ssh-rsa AAA","description":"laptop"},{"key":"ssh-ed25519 BBB","description":null}]}"#,
    );
    check(
        &signed().update_ssh_keys(vec![], &UserId::from("u-7")),
        Method::Patch,
        "https://account.scaleway.com/users/u-7",
        r#"{"ssh_public_keys":[]}"#,
    );
}

#[test]
fn create_server_request() {
    let opts = ServerOptions {
        organization: Some(OrganizationId::from("org")),
        name: "web \"1\"".to_string(),
        image: ImageId::from("img"),
        commercial_type: CommercialType::Start1S,
        tags: vec!["a".to_string(), "b".to_string()],
        enable_ipv6: true,
        boot_type: BootType::Local,
    };
    check(
        &signed().create_server(Region::Par1, opts),
        Method::Post,
        "https://cp-par1.scaleway.com/servers",
        r#"{"organization":"org","name":"web \"1\"","image":"img","commercial_type":"START1-S","tags":["a","b"],"enable_ipv6":true,"boot_type":"local"}"#,
    );
    let opts = ServerOptions {
        organization: None,
        name: String::new(),
        image: ImageId::from("img"),
        commercial_type: CommercialType::Start1S,
        tags: vec![],
        enable_ipv6: false,
        boot_type: BootType::Local,
    };
    check(
        &signed().create_server(Region::Ams1, opts),
        Method::Post,
        "https://cp-ams1.scaleway.com/servers",
        r#"{"organization":null,"name":"","image":"img","commercial_type":"START1-S","tags":[],"enable_ipv6":false,"boot_type":"local"}"#,
    );
}
