use scaleway::client::TokenReply;
use scaleway::utils::{request, response, response_noret, ApiResponse, NilType};
use scaleway::{
    ApiError, ApiErrorType, Client, Date, Error, Ip, Json, Method, Reply, Token, TokenCategory,
    TokenId,
};

fn reply(status: u16, body: &str) -> Result<Reply, String> {
    Ok(Reply { status, body: body.as_bytes().to_vec() })
}

const TOKEN_BODY: &str = r#"{"token":{"id":"abc","access_key":"k","category":"session","user_id":"u1","description":"d","inherits_user_perms":true,"creation_ip":"1.2.3.4","creation_date":"2020-01-01T00:00:00+00:00"}}"#;

#[test]
fn token_body_is_read_field_by_field() {
    let token: Token = Client::token_result(reply(200, TOKEN_BODY)).unwrap();
    assert_eq!(token.access_key.as_str(), "k");
    assert_eq!(token.category, TokenCategory::Session);
    assert_eq!(token.user_id.as_str(), "u1");
    assert_eq!(token.description, "d");
    assert!(token.inherits_user_perms);
    assert_eq!(token.creation_ip, Ip::V4(1, 2, 3, 4));
    assert_eq!(token.creation_date, Date { seconds: 1577836800, nanos: 0, offset: 0 });
    assert_eq!(token.deletion_date, None);
    assert_eq!(token.expires, None);
}

#[test]
fn token_body_with_every_member() {
    let body = r#"{"token":{"access_key":"SCW123","category":"user_created","user_id":"u-9","description":"","inherits_user_perms":false,"deletion_date":"2019-06-01T12:30:15.5+02:00","creation_ip":"2001:db8::1","expires":null,"creation_date":"2018-03-04T05:06:07Z","roles":{"organization":null,"role":"none"},"extra":1.5}}"#;
    let token = response::<TokenReply>(reply(200, body)).unwrap().token;
    assert_eq!(token.access_key.as_str(), "SCW123");
    assert_eq!(token.category, TokenCategory::UserCreated);
    assert_eq!(token.description, "");
    assert!(!token.inherits_user_perms);
    assert_eq!(
        token.deletion_date,
        Some(Date { seconds: 1559385015, nanos: 500_000_000, offset: 7200 })
    );
    assert_eq!(token.creation_ip, Ip::V6(0x2001, 0xdb8, 0, 0, 0, 0, 0, 1));
    assert_eq!(token.expires, None);
    assert_eq!(token.creation_date, Date { seconds: 1520139967, nanos: 0, offset: 0 });
}

#[test]
fn error_body_gives_an_api_error() {
    let result = Client::token_result(reply(401, r#"{"message":"bad","type":"invalid_auth"}"#));
    match result {
        Err(Error::Api(e)) => {
            assert_eq!(e.message, "bad");
            assert_eq!(e.kind, ApiErrorType::InvalidAuth);
            assert!(e.fields.is_none());
        }
        other => panic!("unexpected: {:?}", other),
    }
}

#[test]
fn error_body_decides_whatever_the_status() {
    let result = Client::token_result(reply(200, r#"{"message":"bad","type":"invalid_auth"}"#));
    assert!(matches!(result, Err(Error::Api(_))));
    let result = Client::token_result(reply(500, TOKEN_BODY));
    assert!(result.is_ok());
}

#[test]
fn error_body_of_each_kind() {
    let kinds = [
        ("invalid_request_error", ApiErrorType::InvalidRequestError),
        ("invalid_auth", ApiErrorType::InvalidAuth),
        ("authorization_required", ApiErrorType::AuthorizationRequired),
        ("unknown_resource", ApiErrorType::UnknownResource),
    ];
    for (name, kind) in kinds {
        let body = format!(r#"{{"type":"{}","message":"m"}}"#, name);
        match response::<TokenReply>(reply(400, &body)) {
            Err(Error::Api(e)) => assert_eq!(e.kind, kind),
            other => panic!("unexpected: {:?}", other),
        }
    }
}

#[test]
fn error_body_with_fields() {
    let body = r#"{"fields":{"email":["required","too short"],"password":[]},"message":"Validation Error","type":"invalid_request_error"}"#;
    match Client::create_token_result(reply(400, body)) {
        Err(Error::Api(e)) => {
            assert_eq!(e.message, "Validation Error");
            assert_eq!(e.kind, ApiErrorType::InvalidRequestError);
            let fields = e.fields.unwrap();
            assert_eq!(
                fields.entries,
                vec![
                    ("email".to_string(), vec!["required".to_string(), "too short".to_string()]),
                    ("password".to_string(), vec![]),
                ]
            );
        }
        other => panic!("unexpected: {:?}", other),
    }
}

#[test]
fn transport_failure_stays_a_transport_error() {
    let failure = reqwest::Client::new().get("not an address").build().unwrap_err().to_string();
    assert!(!failure.is_empty());
    match Client::token_result(Err(failure.clone())) {
        Err(Error::Reqwest(message)) => assert_eq!(message, failure),
        other => panic!("unexpected: {:?}", other),
    }
    match response_noret(Err(failure.clone())) {
        Err(Error::Reqwest(message)) => assert_eq!(message, failure),
        other => panic!("unexpected: {:?}", other),
    }
    assert!(matches!(Client::from_user_result(Err(failure)), Err(Error::Reqwest(_))));
}

#[test]
fn body_that_is_no_json_is_a_serialization_error() {
    assert!(matches!(Client::token_result(reply(200, "")), Err(Error::Serde(_))));
    assert!(matches!(Client::token_result(reply(200, "<html>")), Err(Error::Serde(_))));
    assert!(matches!(Client::token_result(reply(502, "Bad Gateway")), Err(Error::Serde(_))));
    assert!(matches!(
        Client::token_result(Ok(Reply { status: 200, body: vec![0xff, 0x00] })),
        Err(Error::Serde(_))
    ));
}

#[test]
fn body_of_neither_shape_is_a_serialization_error() {
    assert!(matches!(Client::token_result(reply(200, "{}")), Err(Error::Serde(_))));
    assert!(matches!(Client::token_result(reply(200, "[]")), Err(Error::Serde(_))));
    assert!(matches!(Client::token_result(reply(200, r#"{"token":{}}"#)), Err(Error::Serde(_))));
    assert!(matches!(
        Client::token_result(reply(200, r#"{"message":"m","type":"teapot"}"#)),
        Err(Error::Serde(_))
    ));
    assert!(matches!(
        Client::token_result(reply(200, r#"{"message":7,"type":"invalid_auth"}"#)),
        Err(Error::Serde(_))
    ));
    assert!(matches!(
        Client::token_result(reply(200, r#"{"type":"invalid_auth"}"#)),
        Err(Error::Serde(_))
    ));
}

#[test]
fn token_member_of_the_wrong_shape_is_refused() {
    let bad_ip = TOKEN_BODY.replace("1.2.3.4", "1.2.3");
    assert!(matches!(Client::token_result(reply(200, &bad_ip)), Err(Error::Serde(_))));
    let bad_date = TOKEN_BODY.replace("2020-01-01T00:00:00+00:00", "2020-01-01");
    assert!(matches!(Client::token_result(reply(200, &bad_date)), Err(Error::Serde(_))));
    let bad_category = TOKEN_BODY.replace("\"session\"", "\"Session\"");
    assert!(matches!(Client::token_result(reply(200, &bad_category)), Err(Error::Serde(_))));
    let bad_flag = TOKEN_BODY.replace("true", "\"true\"");
    assert!(matches!(Client::token_result(reply(200, &bad_flag)), Err(Error::Serde(_))));
    let null_id = TOKEN_BODY.replace("\"u1\"", "null");
    assert!(matches!(Client::token_result(reply(200, &null_id)), Err(Error::Serde(_))));
    let bad_optional = TOKEN_BODY.replace("\"description\":\"d\"", "\"description\":\"d\",\"expires\":5");
    assert!(matches!(Client::token_result(reply(200, &bad_optional)), Err(Error::Serde(_))));
}

#[test]
fn success_comes_before_error() {
    let both = r#"{"message":"m","type":"invalid_auth","token":{"access_key":"k","category":"session","user_id":"u1","description":"d","inherits_user_perms":true,"creation_ip":"1.2.3.4","creation_date":"2020-01-01T00:00:00+00:00"}}"#;
    assert!(Client::token_result(reply(200, both)).is_ok());
}

#[test]
fn api_response_into_result() {
    let ok: Result<u16, Error> = ApiResponse::Success(7u16).into();
    assert!(matches!(ok, Ok(7)));
    let error = ApiError {
        fields: None,
        message: "m".to_string(),
        kind: ApiErrorType::UnknownResource,
    };
    let failed: Result<u16, Error> = ApiResponse::Error(error).into();
    match failed {
        Err(Error::Api(e)) => {
            assert_eq!(e.message, "m");
            assert_eq!(e.kind, ApiErrorType::UnknownResource);
        }
        other => panic!("unexpected: {:?}", other),
    }
}

#[test]
fn api_response_from_json_tries_success_first() {
    let doc = Json::parse(br#"{"message":"m","type":"invalid_auth"}"#).unwrap();
    assert!(matches!(ApiResponse::<String>::from_json(&doc), Some(ApiResponse::Error(_))));
    let doc = Json::parse(br#""text""#).unwrap();
    assert_eq!(
        ApiResponse::<String>::from_json(&doc),
        Some(ApiResponse::Success("text".to_string()))
    );
    let doc = Json::parse(b"12").unwrap();
    assert_eq!(ApiResponse::<String>::from_json(&doc), None);
    assert_eq!(ApiResponse::<u16>::from_json(&doc), Some(ApiResponse::Success(12)));
}

#[test]
fn request_without_a_body_sends_an_empty_object() {
    let client = Client::anonymous();
    let made = request::<NilType>(&client, Method::Get, "https://example.org/x", None);
    assert_eq!(made.method, Method::Get);
    assert_eq!(made.url, "https://example.org/x");
    assert_eq!(made.body, "{}");
    assert_eq!(made.headers, vec![("content-type".to_string(), "application/json".to_string())]);
}

#[test]
fn request_with_a_body_sends_its_text() {
    let client = Client::from_token(&TokenId::from("secret")).unwrap();
    let made = request(&client, Method::Patch, "u", Some(vec!["a\"b".to_string(), "c".to_string()]));
    assert_eq!(made.method, Method::Patch);
    assert_eq!(made.url, "u");
    assert_eq!(made.body, r#"["a\"b","c"]"#);
    assert_eq!(
        made.headers,
        vec![
            ("x-auth-token".to_string(), "secret".to_string()),
            ("content-type".to_string(), "application/json".to_string()),
        ]
    );
    let made = request(&client, Method::Post, "u", Some(NilType {}));
    assert_eq!(made.body, "{}");
    let made = request(&client, Method::Post, "u", Some(None::<String>));
    assert_eq!(made.body, "null");
}

#[test]
fn no_return_success_ignores_the_body() {
    assert!(response_noret(reply(204, "")).is_ok());
    assert!(response_noret(reply(200, "not json")).is_ok());
    assert!(response_noret(reply(299, r#"{"message":"m","type":"invalid_auth"}"#)).is_ok());
}

#[test]
fn no_return_failure_reads_the_error() {
    match response_noret(reply(404, r#"{"message":"gone","type":"unknown_resource"}"#)) {
        Err(Error::Api(e)) => {
            assert_eq!(e.message, "gone");
            assert_eq!(e.kind, ApiErrorType::UnknownResource);
        }
        other => panic!("unexpected: {:?}", other),
    }
    assert!(matches!(response_noret(reply(300, r#"{"message":"m","type":"invalid_auth"}"#)), Err(Error::Api(_))));
    assert!(matches!(response_noret(reply(199, r#"{"message":"m","type":"invalid_auth"}"#)), Err(Error::Api(_))));
    assert!(matches!(response_noret(reply(500, "{}")), Err(Error::Serde(_))));
    assert!(matches!(response_noret(reply(500, "oops")), Err(Error::Serde(_))));
    assert!(matches!(response_noret(reply(500, "")), Err(Error::Serde(_))));
}

#[test]
fn method_names() {
    assert_eq!(Method::Get.name(), "GET");
    assert_eq!(Method::Post.name(), "POST");
    assert_eq!(Method::Patch.name(), "PATCH");
    assert_eq!(Method::Delete.name(), "DELETE");
}

#[test]
fn reply_success_is_the_two_hundreds() {
    assert!(!Reply { status: 199, body: vec![] }.is_success());
    assert!(Reply { status: 200, body: vec![] }.is_success());
    assert!(Reply { status: 299, body: vec![] }.is_success());
    assert!(!Reply { status: 300, body: vec![] }.is_success());
}
