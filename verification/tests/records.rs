use scaleway::shape::FromJson;
use scaleway::{
    Arch, BootType, Client, CommercialType, Date, Error, Ip, Json, Organization, Reply, Role,
    Roles, Server, ServerState, SshKey, TokenCategory, User, Volume, VolumeType,
};

fn reply(status: u16, body: &str) -> Result<Reply, String> {
    Ok(Reply { status, body: body.as_bytes().to_vec() })
}

fn doc(text: &str) -> Json {
    Json::parse(text.as_bytes()).unwrap()
}

const KEY: &str = r#"{"port":22,"email":null,"key":"ssh-rsa AAA","fingerprint":"2048 aa:bb","ip":"10.0.0.1","description":"laptop","id":"k1","creation_date":"2020-01-01T00:00:00+00:00"}"#;

fn user_text(organizations: &str, roles: &str) -> String {
    format!(
        r#"{{"phone_number":"+33","double_auth_enabled":false,"firstname":"Ada","lastname":"L","creation_date":"2018-03-04T05:06:07Z","ssh_public_keys":[{}],"id":"u1","organizations":{},"modification_date":null,"roles":{},"fullname":"Ada L","email":"ada@example.org"}}"#,
        KEY, organizations, roles
    )
}

#[test]
fn ssh_key_is_read() {
    let key = SshKey::from_json(&doc(KEY)).unwrap();
    assert_eq!(key.port, 22);
    assert_eq!(key.email, None);
    assert_eq!(key.modification_date, None);
    assert_eq!(key.key, "ssh-rsa AAA");
    assert_eq!(key.fingerprint, "2048 aa:bb");
    assert_eq!(key.ip, Some(Ip::V4(10, 0, 0, 1)));
    assert_eq!(key.description, Some("laptop".to_string()));
    assert_eq!(key.id.as_str(), "k1");
    assert_eq!(key.creation_date, Date { seconds: 1577836800, nanos: 0, offset: 0 });
}

#[test]
fn ssh_key_port_must_fit() {
    assert!(SshKey::from_json(&doc(&KEY.replace("22", "65535"))).is_some());
    assert_eq!(SshKey::from_json(&doc(&KEY.replace("22", "65535"))).unwrap().port, 65535);
    assert!(SshKey::from_json(&doc(&KEY.replace("22", "65536"))).is_none());
    assert!(SshKey::from_json(&doc(&KEY.replace("22", "-1"))).is_none());
    assert!(SshKey::from_json(&doc(&KEY.replace("22", "22.0"))).is_none());
    assert!(SshKey::from_json(&doc(&KEY.replace("22", "\"22\""))).is_none());
}

#[test]
fn user_is_read_with_what_is_nested() {
    let organizations = r#"[{"id":"o1","name":"Org","users":null},{"id":"o2","name":"Two"}]"#;
    let roles = r#"[{"organization":{"id":"o1","name":"Org","users":[]},"role":"admin"},{"role":"manager"}]"#;
    let body = format!(r#"{{"user":{}}}"#, user_text(organizations, roles));
    let user: User = Client::user_result(reply(200, &body)).unwrap();
    assert_eq!(user.phone_number, "+33");
    assert!(!user.double_auth_enabled);
    assert_eq!(user.firstname, "Ada");
    assert_eq!(user.lastname, "L");
    assert_eq!(user.creation_date, Date { seconds: 1520139967, nanos: 0, offset: 0 });
    assert_eq!(user.ssh_public_keys.len(), 1);
    assert_eq!(user.ssh_public_keys[0].id.as_str(), "k1");
    assert_eq!(user.id.as_str(), "u1");
    assert_eq!(user.organizations.len(), 2);
    assert_eq!(user.organizations[0].id.as_str(), "o1");
    assert_eq!(user.organizations[0].name, "Org");
    assert_eq!(user.organizations[0].users, None);
    assert_eq!(user.organizations[1].users, None);
    assert_eq!(user.modification_date, None);
    assert_eq!(user.roles.len(), 2);
    assert_eq!(user.roles[0].role, Role::Admin);
    assert_eq!(user.roles[0].organization.as_ref().unwrap().users, Some(vec![]));
    assert_eq!(user.roles[1], Roles { organization: None, role: Role::Manager });
    assert_eq!(user.fullname, "Ada L");
    assert_eq!(user.email, "ada@example.org");
    assert_eq!(Client::update_ssh_keys_result(reply(200, &body)).unwrap(), user);
}

#[test]
fn user_inside_an_organization_inside_a_user() {
    let inner = user_text("[]", "[]");
    let organizations = format!(r#"[{{"id":"o1","name":"Org","users":[{}]}}]"#, inner);
    let user = User::from_json(&doc(&user_text(&organizations, "[]"))).unwrap();
    let members = user.organizations[0].users.as_ref().unwrap();
    assert_eq!(members.len(), 1);
    assert_eq!(members[0].email, "ada@example.org");
    assert_eq!(members[0].organizations, vec![]);
}

#[test]
fn user_with_a_bad_nested_member_is_refused() {
    assert!(User::from_json(&doc(&user_text("[{\"id\":\"o1\"}]", "[]"))).is_none());
    assert!(User::from_json(&doc(&user_text("[]", "[{\"role\":\"owner\"}]"))).is_none());
    assert!(User::from_json(&doc(&user_text("null", "[]"))).is_none());
    assert!(User::from_json(&doc(&user_text("{}", "[]"))).is_none());
    let bad_inner = r#"[{"id":"o1","name":"Org","users":[{"id":"u2"}]}]"#;
    assert!(User::from_json(&doc(&user_text(bad_inner, "[]"))).is_none());
    assert!(User::from_json(&doc("[]")).is_none());
}

#[test]
fn organizations_are_read() {
    let body = r#"{"organizations":[{"id":"o1","name":"Org","users":[]}]}"#;
    let organizations = Client::organizations_result(reply(200, body)).unwrap();
    assert_eq!(organizations.len(), 1);
    assert_eq!(organizations[0].name, "Org");
    assert_eq!(organizations[0].users, Some(vec![]));
    assert!(matches!(
        Client::organizations_result(reply(200, r#"{"organizations":[{"id":1,"name":"Org"}]}"#)),
        Err(Error::Serde(_))
    ));
    assert!(Organization::from_json(&doc(r#"{"id":"o","name":"n","users":"none"}"#)).is_none());
}

const VOLUME: &str = r#"{"export_uri":null,"id":"v1","name":"disk","organization":"o1","server":{"id":"s1","name":"web"},"size":50000000000,"volume_type":"l_ssd"}"#;

#[test]
fn volume_is_read() {
    let volume = Volume::from_json(&doc(VOLUME)).unwrap();
    assert_eq!(volume.export_uri, None);
    assert_eq!(volume.id.as_str(), "v1");
    assert_eq!(volume.name, "disk");
    assert_eq!(volume.organization.as_str(), "o1");
    assert_eq!(volume.server.id.as_str(), "s1");
    assert_eq!(volume.server.name, "web");
    assert_eq!(volume.size, 50_000_000_000);
    assert_eq!(volume.volume_type, VolumeType::LSsd);
}

#[test]
fn server_is_read() {
    let body = format!(
        r#"{{"server":{{"bootscript":null,"dynamic_ip_required":true,"id":"s1","image":{{"id":"i1","name":"Ubuntu"}},"name":"web","organization":"o1","private_ip":"10.1.2.3","public_ip":null,"enable_ipv6":true,"state":"running","ipv6":"2001:db8::2","commercial_type":"START1-S","arch":"x86_64","boot_type":"local","tags":["a","b"],"volumes":{{"0":{},"1":{}}}}}}}"#,
        VOLUME,
        VOLUME.replace("v1", "v2")
    );
    let server: Server = Client::create_server_result(reply(201, &body)).unwrap();
    assert_eq!(server.bootscript, None);
    assert!(server.dynamic_ip_required);
    assert_eq!(server.id.as_str(), "s1");
    assert_eq!(server.image.id.as_str(), "i1");
    assert_eq!(server.image.name, "Ubuntu");
    assert_eq!(server.name, "web");
    assert_eq!(server.organization.as_str(), "o1");
    assert_eq!(server.private_ip, Some(Ip::V4(10, 1, 2, 3)));
    assert_eq!(server.public_ip, None);
    assert!(server.enable_ipv6);
    assert_eq!(server.state, ServerState::Running);
    assert_eq!(server.ipv6, Some(Ip::V6(0x2001, 0xdb8, 0, 0, 0, 0, 0, 2)));
    assert_eq!(server.commercial_type, CommercialType::Start1S);
    assert_eq!(server.arch, Arch::X86_64);
    assert_eq!(server.boot_type, BootType::Local);
    assert_eq!(server.tags, vec!["a".to_string(), "b".to_string()]);
    assert_eq!(server.volumes.entries.len(), 2);
    assert_eq!(server.volumes.entries[0].0, "0");
    assert_eq!(server.volumes.entries[0].1.id.as_str(), "v1");
    assert_eq!(server.volumes.entries[1].0, "1");
    assert_eq!(server.volumes.entries[1].1.id.as_str(), "v2");
}

#[test]
fn server_with_a_bad_volume_is_refused() {
    let body = r#"{"server":{"bootscript":null,"dynamic_ip_required":true,"id":"s1","image":{"id":"i1","name":"Ubuntu"},"name":"web","organization":"o1","enable_ipv6":true,"state":"stopped","commercial_type":"START1-S","arch":"x86_64","boot_type":"local","tags":[],"volumes":{"0":{}}}}"#;
    assert!(matches!(Client::create_server_result(reply(201, body)), Err(Error::Serde(_))));
    let fine = body.replace("{\"0\":{}}", "{}");
    let server = Client::create_server_result(reply(201, &fine)).unwrap();
    assert_eq!(server.state, ServerState::Stopped);
    assert!(server.volumes.entries.is_empty());
    assert!(matches!(
        Client::create_server_result(reply(201, &fine.replace("x86_64", "arm64"))),
        Err(Error::Serde(_))
    ));
}

#[test]
fn tags_of_every_set() {
    assert_eq!(TokenCategory::from_tag("user_created"), Some(TokenCategory::UserCreated));
    assert_eq!(TokenCategory::from_tag("session"), Some(TokenCategory::Session));
    assert_eq!(TokenCategory::from_tag("Session"), None);
    assert_eq!(TokenCategory::UserCreated.tag(), "user_created");
    assert_eq!(TokenCategory::Session.tag(), "session");
    assert_eq!(Role::from_tag("manager"), Some(Role::Manager));
    assert_eq!(Role::from_tag("admin"), Some(Role::Admin));
    assert_eq!(Role::from_tag(""), None);
    assert_eq!(CommercialType::from_tag("START1-S"), Some(CommercialType::Start1S));
    assert_eq!(CommercialType::from_tag("start1-s"), None);
    assert_eq!(CommercialType::Start1S.tag(), "START1-S");
    assert_eq!(BootType::from_tag("local"), Some(BootType::Local));
    assert_eq!(VolumeType::from_tag("l_ssd"), Some(VolumeType::LSsd));
    assert_eq!(Arch::from_tag("x86_64"), Some(Arch::X86_64));
    assert_eq!(ServerState::from_tag("stopped"), Some(ServerState::Stopped));
    assert_eq!(ServerState::from_tag("running"), Some(ServerState::Running));
    assert_eq!(ServerState::Running.tag(), "running");
}
