//! The account service: tokens, users and organizations.

use vstd::prelude::*;
use crate::date::Date;
use crate::ids::{AccessKey, OrganizationId, SshKeyId, UserId};
use crate::ip::Ip;
use crate::json::{Json, JsonValue, lemma_array_view, lemma_member_smaller};
use crate::shape::{FromJson, field, optional, optional_field, required};
use crate::text::same_text;

verus! {

/// The category of a token.
#[derive(Debug, Clone, Copy, PartialEq, Eq, Structural)]
pub enum TokenCategory {
    /// Made by the user; it does not expire.
    UserCreated,
    /// Made for a session; it expires unless it is renewed.
    Session,
}

impl TokenCategory {
    /// The name that the service gives the category.
    pub open spec fn tag_text(self) -> Seq<char> {
        match self {
            TokenCategory::UserCreated => "user_created"@,
            TokenCategory::Session => "session"@,
        }
    }

    /// What a name of the service stands for; nothing for any other text.
    pub open spec fn of_tag(text: Seq<char>) -> Option<TokenCategory> {
        if text == "user_created"@ {
            Some(TokenCategory::UserCreated)
        } else if text == "session"@ {
            Some(TokenCategory::Session)
        } else {
            None
        }
    }

    /// The name that the service gives the category.
    pub fn tag(&self) -> (text: &'static str)
        ensures
            text@ == self.tag_text(),
    {
        match self {
            TokenCategory::UserCreated => "user_created",
            TokenCategory::Session => "session",
        }
    }

    /// Reads a name of the service.
    pub fn from_tag(text: &str) -> (read: Option<TokenCategory>)
        ensures
            read == TokenCategory::of_tag(text@),
    {
        if same_text(text, "user_created") {
            Some(TokenCategory::UserCreated)
        } else if same_text(text, "session") {
            Some(TokenCategory::Session)
        } else {
            None
        }
    }
}

impl DeepView for TokenCategory {
    type V = TokenCategory;

    open spec fn deep_view(&self) -> TokenCategory {
        *self
    }
}

impl FromJson for TokenCategory {
    open spec fn of_json(doc: JsonValue) -> Option<TokenCategory> {
        match doc {
            JsonValue::Str(text) => TokenCategory::of_tag(text),
            _ => None,
        }
    }

    fn from_json(doc: &Json) -> (read: Option<TokenCategory>) {
        match doc {
            Json::Str(text) => TokenCategory::from_tag(text.as_str()),
            _ => None,
        }
    }
}

/// Each category has a name of its own: reading the name that one is given gives it back.
pub proof fn lemma_token_category_tag_round_trip(value: TokenCategory)
    ensures
        TokenCategory::of_tag(value.tag_text()) == Some(value),
{
    reveal_strlit("user_created");
    reveal_strlit("session");
    assert("user_created"@.len() == 12);
    assert("session"@.len() == 7);
}

/// The role of a user in an organization.
#[derive(Debug, Clone, Copy, PartialEq, Eq, Structural)]
pub enum Role {
    Manager,
    Admin,
}

impl Role {
    /// The name that the service gives the role.
    pub open spec fn tag_text(self) -> Seq<char> {
        match self {
            Role::Manager => "manager"@,
            Role::Admin => "admin"@,
        }
    }

    /// What a name of the service stands for; nothing for any other text.
    pub open spec fn of_tag(text: Seq<char>) -> Option<Role> {
        if text == "manager"@ {
            Some(Role::Manager)
        } else if text == "admin"@ {
            Some(Role::Admin)
        } else {
            None
        }
    }

    /// The name that the service gives the role.
    pub fn tag(&self) -> (text: &'static str)
        ensures
            text@ == self.tag_text(),
    {
        match self {
            Role::Manager => "manager",
            Role::Admin => "admin",
        }
    }

    /// Reads a name of the service.
    pub fn from_tag(text: &str) -> (read: Option<Role>)
        ensures
            read == Role::of_tag(text@),
    {
        if same_text(text, "manager") {
            Some(Role::Manager)
        } else if same_text(text, "admin") {
            Some(Role::Admin)
        } else {
            None
        }
    }
}

impl DeepView for Role {
    type V = Role;

    open spec fn deep_view(&self) -> Role {
        *self
    }
}

impl FromJson for Role {
    open spec fn of_json(doc: JsonValue) -> Option<Role> {
        match doc {
            JsonValue::Str(text) => Role::of_tag(text),
            _ => None,
        }
    }

    fn from_json(doc: &Json) -> (read: Option<Role>) {
        match doc {
            Json::Str(text) => Role::from_tag(text.as_str()),
            _ => None,
        }
    }
}

/// Each role has a name of its own: reading the name that one is given gives it back.
pub proof fn lemma_role_tag_round_trip(value: Role)
    ensures
        Role::of_tag(value.tag_text()) == Some(value),
{
    reveal_strlit("manager");
    reveal_strlit("admin");
    assert("manager"@.len() == 7);
    assert("admin"@.len() == 5);
}

/// A token, as the service describes it.
#[derive(Debug, PartialEq, Eq)]
pub struct Token {
    pub access_key: AccessKey,
    pub category: TokenCategory,
    pub user_id: UserId,
    pub description: String,
    pub inherits_user_perms: bool,
    pub deletion_date: Option<Date>,
    pub creation_ip: Ip,
    /// When the token expires; nothing for a token that does not.
    pub expires: Option<Date>,
    pub creation_date: Date,
}

/// The value of a token.
pub struct TokenView {
    pub access_key: Seq<char>,
    pub category: TokenCategory,
    pub user_id: Seq<char>,
    pub description: Seq<char>,
    pub inherits_user_perms: bool,
    pub deletion_date: Option<Date>,
    pub creation_ip: Ip,
    pub expires: Option<Date>,
    pub creation_date: Date,
}

impl DeepView for Token {
    type V = TokenView;

    open spec fn deep_view(&self) -> TokenView {
        TokenView {
            access_key: self.access_key.deep_view(),
            category: self.category.deep_view(),
            user_id: self.user_id.deep_view(),
            description: self.description.deep_view(),
            inherits_user_perms: self.inherits_user_perms.deep_view(),
            deletion_date: self.deletion_date.deep_view(),
            creation_ip: self.creation_ip.deep_view(),
            expires: self.expires.deep_view(),
            creation_date: self.creation_date.deep_view(),
        }
    }
}

impl Token {
    /// Whether a document has every member that a token needs,
    /// each of its own shape.
    pub open spec fn readable(doc: JsonValue) -> bool {
        &&& doc is Object
        &&& required::<AccessKey>(doc.get("access_key"@)) is Some
        &&& required::<TokenCategory>(doc.get("category"@)) is Some
        &&& required::<UserId>(doc.get("user_id"@)) is Some
        &&& required::<String>(doc.get("description"@)) is Some
        &&& required::<bool>(doc.get("inherits_user_perms"@)) is Some
        &&& optional::<Date>(doc.get("deletion_date"@)) is Some
        &&& required::<Ip>(doc.get("creation_ip"@)) is Some
        &&& optional::<Date>(doc.get("expires"@)) is Some
        &&& required::<Date>(doc.get("creation_date"@)) is Some
    }
}

impl FromJson for Token {
    open spec fn of_json(doc: JsonValue) -> Option<TokenView> {
        if Token::readable(doc) {
            Some(
                TokenView {
                    access_key: required::<AccessKey>(doc.get("access_key"@))->0,
                    category: required::<TokenCategory>(doc.get("category"@))->0,
                    user_id: required::<UserId>(doc.get("user_id"@))->0,
                    description: required::<String>(doc.get("description"@))->0,
                    inherits_user_perms: required::<bool>(doc.get("inherits_user_perms"@))->0,
                    deletion_date: optional::<Date>(doc.get("deletion_date"@))->0,
                    creation_ip: required::<Ip>(doc.get("creation_ip"@))->0,
                    expires: optional::<Date>(doc.get("expires"@))->0,
                    creation_date: required::<Date>(doc.get("creation_date"@))->0,
                },
            )
        } else {
            None
        }
    }

    fn from_json(doc: &Json) -> (read: Option<Token>) {
        if !doc.is_object() {
            return None;
        }
        let access_key = field::<AccessKey>(doc, "access_key")?;
        let category = field::<TokenCategory>(doc, "category")?;
        let user_id = field::<UserId>(doc, "user_id")?;
        let description = field::<String>(doc, "description")?;
        let inherits_user_perms = field::<bool>(doc, "inherits_user_perms")?;
        let deletion_date = optional_field::<Date>(doc, "deletion_date")?;
        let creation_ip = field::<Ip>(doc, "creation_ip")?;
        let expires = optional_field::<Date>(doc, "expires")?;
        let creation_date = field::<Date>(doc, "creation_date")?;
        Some(
            Token {
                access_key,
                category,
                user_id,
                description,
                inherits_user_perms,
                deletion_date,
                creation_ip,
                expires,
                creation_date,
            },
        )
    }
}

/// An SSH key of a user.
#[derive(Debug, PartialEq, Eq)]
pub struct SshKey {
    pub port: u16,
    pub email: Option<String>,
    pub modification_date: Option<Date>,
    pub key: String,
    pub fingerprint: String,
    pub ip: Option<Ip>,
    pub description: Option<String>,
    pub id: SshKeyId,
    pub creation_date: Date,
}

/// The value of an SSH key.
pub struct SshKeyView {
    pub port: u16,
    pub email: Option<Seq<char>>,
    pub modification_date: Option<Date>,
    pub key: Seq<char>,
    pub fingerprint: Seq<char>,
    pub ip: Option<Ip>,
    pub description: Option<Seq<char>>,
    pub id: Seq<char>,
    pub creation_date: Date,
}

impl DeepView for SshKey {
    type V = SshKeyView;

    open spec fn deep_view(&self) -> SshKeyView {
        SshKeyView {
            port: self.port.deep_view(),
            email: self.email.deep_view(),
            modification_date: self.modification_date.deep_view(),
            key: self.key.deep_view(),
            fingerprint: self.fingerprint.deep_view(),
            ip: self.ip.deep_view(),
            description: self.description.deep_view(),
            id: self.id.deep_view(),
            creation_date: self.creation_date.deep_view(),
        }
    }
}

impl SshKey {
    /// Whether a document has every member that an SSH key needs,
    /// each of its own shape.
    pub open spec fn readable(doc: JsonValue) -> bool {
        &&& doc is Object
        &&& required::<u16>(doc.get("port"@)) is Some
        &&& optional::<String>(doc.get("email"@)) is Some
        &&& optional::<Date>(doc.get("modification_date"@)) is Some
        &&& required::<String>(doc.get("key"@)) is Some
        &&& required::<String>(doc.get("fingerprint"@)) is Some
        &&& optional::<Ip>(doc.get("ip"@)) is Some
        &&& optional::<String>(doc.get("description"@)) is Some
        &&& required::<SshKeyId>(doc.get("id"@)) is Some
        &&& required::<Date>(doc.get("creation_date"@)) is Some
    }
}

impl FromJson for SshKey {
    open spec fn of_json(doc: JsonValue) -> Option<SshKeyView> {
        if SshKey::readable(doc) {
            Some(
                SshKeyView {
                    port: required::<u16>(doc.get("port"@))->0,
                    email: optional::<String>(doc.get("email"@))->0,
                    modification_date: optional::<Date>(doc.get("modification_date"@))->0,
                    key: required::<String>(doc.get("key"@))->0,
                    fingerprint: required::<String>(doc.get("fingerprint"@))->0,
                    ip: optional::<Ip>(doc.get("ip"@))->0,
                    description: optional::<String>(doc.get("description"@))->0,
                    id: required::<SshKeyId>(doc.get("id"@))->0,
                    creation_date: required::<Date>(doc.get("creation_date"@))->0,
                },
            )
        } else {
            None
        }
    }

    fn from_json(doc: &Json) -> (read: Option<SshKey>) {
        if !doc.is_object() {
            return None;
        }
        let port = field::<u16>(doc, "port")?;
        let email = optional_field::<String>(doc, "email")?;
        let modification_date = optional_field::<Date>(doc, "modification_date")?;
        let key = field::<String>(doc, "key")?;
        let fingerprint = field::<String>(doc, "fingerprint")?;
        let ip = optional_field::<Ip>(doc, "ip")?;
        let description = optional_field::<String>(doc, "description")?;
        let id = field::<SshKeyId>(doc, "id")?;
        let creation_date = field::<Date>(doc, "creation_date")?;
        Some(
            SshKey {
                port,
                email,
                modification_date,
                key,
                fingerprint,
                ip,
                description,
                id,
                creation_date,
            },
        )
    }
}

/// A role that a user holds, and where.
#[derive(Debug, PartialEq, Eq)]
pub struct Roles {
    pub organization: Option<Organization>,
    pub role: Role,
}

/// A user, as the service describes them.
#[derive(Debug, PartialEq, Eq)]
pub struct User {
    pub phone_number: String,
    pub double_auth_enabled: bool,
    pub firstname: String,
    pub lastname: String,
    pub creation_date: Date,
    pub ssh_public_keys: Vec<SshKey>,
    pub id: UserId,
    pub organizations: Vec<Organization>,
    pub modification_date: Option<Date>,
    pub roles: Vec<Roles>,
    pub fullname: String,
    pub email: String,
}

/// An organization, as the service describes it.
#[derive(Debug, PartialEq, Eq)]
pub struct Organization {
    pub id: OrganizationId,
    pub name: String,
    pub users: Option<Vec<User>>,
}

/// The value of a role held.
pub struct RolesView {
    pub organization: Option<OrganizationView>,
    pub role: Role,
}

/// The value of a user.
pub struct UserView {
    pub phone_number: Seq<char>,
    pub double_auth_enabled: bool,
    pub firstname: Seq<char>,
    pub lastname: Seq<char>,
    pub creation_date: Date,
    pub ssh_public_keys: Seq<SshKeyView>,
    pub id: Seq<char>,
    pub organizations: Seq<OrganizationView>,
    pub modification_date: Option<Date>,
    pub roles: Seq<RolesView>,
    pub fullname: Seq<char>,
    pub email: Seq<char>,
}

/// The value of an organization.
pub struct OrganizationView {
    pub id: Seq<char>,
    pub name: Seq<char>,
    pub users: Option<Seq<UserView>>,
}

/// The value of a role held.
pub open spec fn roles_view(roles: Roles) -> RolesView
    decreases roles,
{
    RolesView {
        organization: match roles.organization {
            Some(organization) => Some(organization_view(organization)),
            None => None,
        },
        role: roles.role,
    }
}

/// The value of a user.
pub open spec fn user_view(user: User) -> UserView
    decreases user,
{
    UserView {
        phone_number: user.phone_number@,
        double_auth_enabled: user.double_auth_enabled,
        firstname: user.firstname@,
        lastname: user.lastname@,
        creation_date: user.creation_date,
        ssh_public_keys: user.ssh_public_keys.deep_view(),
        id: user.id@,
        organizations: Seq::new(
            user.organizations@.len(),
            |i: int|
                if 0 <= i < user.organizations@.len() {
                    organization_view(user.organizations@[i])
                } else {
                    arbitrary()
                },
        ),
        modification_date: user.modification_date,
        roles: Seq::new(
            user.roles@.len(),
            |i: int|
                if 0 <= i < user.roles@.len() {
                    roles_view(user.roles@[i])
                } else {
                    arbitrary()
                },
        ),
        fullname: user.fullname@,
        email: user.email@,
    }
}

/// The value of an organization.
pub open spec fn organization_view(organization: Organization) -> OrganizationView
    decreases organization,
{
    OrganizationView {
        id: organization.id@,
        name: organization.name@,
        users: match organization.users {
            Some(users) => Some(
                Seq::new(
                    users@.len(),
                    |i: int|
                        if 0 <= i < users@.len() {
                            user_view(users@[i])
                        } else {
                            arbitrary()
                        },
                ),
            ),
            None => None,
        },
    }
}

impl DeepView for Roles {
    type V = RolesView;

    open spec fn deep_view(&self) -> RolesView {
        roles_view(*self)
    }
}

impl DeepView for User {
    type V = UserView;

    open spec fn deep_view(&self) -> UserView {
        user_view(*self)
    }
}

impl DeepView for Organization {
    type V = OrganizationView;

    open spec fn deep_view(&self) -> OrganizationView {
        organization_view(*self)
    }
}

/// What a document says when it is read as a role held.
pub open spec fn roles_of_json(doc: JsonValue) -> Option<RolesView>
    decreases doc, 1nat,
{
    if doc is Object && organization_in(doc, "organization"@) is Some && required::<Role>(
        doc.get("role"@),
    ) is Some {
        Some(
            RolesView {
                organization: organization_in(doc, "organization"@)->0,
                role: required::<Role>(doc.get("role"@))->0,
            },
        )
    } else {
        None
    }
}

/// What a document says when it is read as a user.
pub open spec fn user_of_json(doc: JsonValue) -> Option<UserView>
    decreases doc, 1nat,
{
    if doc is Object && required::<String>(doc.get("phone_number"@)) is Some && required::<bool>(
        doc.get("double_auth_enabled"@),
    ) is Some && required::<String>(doc.get("firstname"@)) is Some && required::<String>(
        doc.get("lastname"@),
    ) is Some && required::<Date>(doc.get("creation_date"@)) is Some && required::<Vec<SshKey>>(
        doc.get("ssh_public_keys"@),
    ) is Some && required::<UserId>(doc.get("id"@)) is Some && organizations_in(
        doc,
        "organizations"@,
    ) is Some && optional::<Date>(doc.get("modification_date"@)) is Some && roles_in(
        doc,
        "roles"@,
    ) is Some && required::<String>(doc.get("fullname"@)) is Some && required::<String>(
        doc.get("email"@),
    ) is Some {
        Some(
            UserView {
                phone_number: required::<String>(doc.get("phone_number"@))->0,
                double_auth_enabled: required::<bool>(doc.get("double_auth_enabled"@))->0,
                firstname: required::<String>(doc.get("firstname"@))->0,
                lastname: required::<String>(doc.get("lastname"@))->0,
                creation_date: required::<Date>(doc.get("creation_date"@))->0,
                ssh_public_keys: required::<Vec<SshKey>>(doc.get("ssh_public_keys"@))->0,
                id: required::<UserId>(doc.get("id"@))->0,
                organizations: organizations_in(doc, "organizations"@)->0,
                modification_date: optional::<Date>(doc.get("modification_date"@))->0,
                roles: roles_in(doc, "roles"@)->0,
                fullname: required::<String>(doc.get("fullname"@))->0,
                email: required::<String>(doc.get("email"@))->0,
            },
        )
    } else {
        None
    }
}

/// What a document says when it is read as an organization.
pub open spec fn organization_of_json(doc: JsonValue) -> Option<OrganizationView>
    decreases doc, 1nat,
{
    if doc is Object && required::<OrganizationId>(doc.get("id"@)) is Some && required::<String>(
        doc.get("name"@),
    ) is Some && users_in(doc, "users"@) is Some {
        Some(
            OrganizationView {
                id: required::<OrganizationId>(doc.get("id"@))->0,
                name: required::<String>(doc.get("name"@))->0,
                users: users_in(doc, "users"@)->0,
            },
        )
    } else {
        None
    }
}

/// What the member `name` of `doc` says when it is read as an organization
/// that may be missing or null.
pub open spec fn organization_in(doc: JsonValue, name: Seq<char>) -> Option<
    Option<OrganizationView>,
>
    decreases doc, 0nat,
{
    match doc.get(name) {
        None => Some(None),
        Some(JsonValue::Null) => Some(None),
        Some(found) => {
            proof {
                lemma_member_smaller(doc, name);
            }
            match organization_of_json(found) {
                Some(organization) => Some(Some(organization)),
                None => None,
            }
        },
    }
}

/// What the member `name` of `doc` says when it is read as a list of
/// organizations.
pub open spec fn organizations_in(doc: JsonValue, name: Seq<char>) -> Option<Seq<OrganizationView>>
    decreases doc, 0nat,
{
    match doc.get(name) {
        Some(JsonValue::Array(items)) => {
            proof {
                lemma_member_smaller(doc, name);
            }
            if forall|i: int|
                0 <= i < items.len() ==> organization_of_json(#[trigger] items[i]) is Some {
                Some(
                    Seq::new(
                        items.len(),
                        |i: int|
                            if 0 <= i < items.len() {
                                organization_of_json(items[i])->0
                            } else {
                                arbitrary()
                            },
                    ),
                )
            } else {
                None
            }
        },
        _ => None,
    }
}

/// What the member `name` of `doc` says when it is read as a list of roles
/// held.
pub open spec fn roles_in(doc: JsonValue, name: Seq<char>) -> Option<Seq<RolesView>>
    decreases doc, 0nat,
{
    match doc.get(name) {
        Some(JsonValue::Array(items)) => {
            proof {
                lemma_member_smaller(doc, name);
            }
            if forall|i: int| 0 <= i < items.len() ==> roles_of_json(#[trigger] items[i]) is Some {
                Some(
                    Seq::new(
                        items.len(),
                        |i: int|
                            if 0 <= i < items.len() {
                                roles_of_json(items[i])->0
                            } else {
                                arbitrary()
                            },
                    ),
                )
            } else {
                None
            }
        },
        _ => None,
    }
}

/// What the member `name` of `doc` says when it is read as a list of users
/// that may be missing or null.
pub open spec fn users_in(doc: JsonValue, name: Seq<char>) -> Option<Option<Seq<UserView>>>
    decreases doc, 0nat,
{
    match doc.get(name) {
        None => Some(None),
        Some(JsonValue::Null) => Some(None),
        Some(JsonValue::Array(items)) => {
            proof {
                lemma_member_smaller(doc, name);
            }
            if forall|i: int| 0 <= i < items.len() ==> user_of_json(#[trigger] items[i]) is Some {
                Some(
                    Some(
                        Seq::new(
                            items.len(),
                            |i: int|
                                if 0 <= i < items.len() {
                                    user_of_json(items[i])->0
                                } else {
                                    arbitrary()
                                },
                        ),
                    ),
                )
            } else {
                None
            }
        },
        _ => None,
    }
}

/// Reads the member `name` of `doc` as an organization that may be missing or
/// null.
fn organization_from(doc: &Json, name: &str) -> (read: Option<Option<Organization>>)
    ensures
        read.deep_view() == organization_in(doc@, name@),
    decreases doc@, 0nat,
{
    match doc.get(name) {
        None => Some(None),
        Some(Json::Null) => Some(None),
        Some(found) => {
            proof {
                lemma_member_smaller(doc@, name@);
            }
            match organization_from_json(found) {
                Some(organization) => Some(Some(organization)),
                None => None,
            }
        },
    }
}

/// Reads the member `name` of `doc` as a list of organizations.
fn organizations_from(doc: &Json, name: &str) -> (read: Option<Vec<Organization>>)
    ensures
        read.deep_view() == organizations_in(doc@, name@),
    decreases doc@, 0nat,
{
    match doc.get(name) {
        Some(found) => match found {
            Json::Array(items) => {
                proof {
                    lemma_array_view(found);
                    lemma_member_smaller(doc@, name@);
                }
                let ghost all = found@->Array_0;
                let mut out: Vec<Organization> = Vec::new();
                let mut i: usize = 0;
                while i < items.len()
                    invariant
                        i <= items.len(),
                        out@.len() == i,
                        doc@.get(name@) == Some(found@),
                        found@ == JsonValue::Array(all),
                        all.len() == items@.len(),
                        forall|k: int| 0 <= k < items@.len() ==> all[k] == items@[k]@,
                        forall|k: int|
                            0 <= k < i ==> organization_of_json(all[k]) == Some(
                                #[trigger] out@[k].deep_view(),
                            ),
                    decreases items.len() - i,
                {
                    proof {
                        lemma_member_smaller(doc@, name@);
                        assert(decreases_to!(all => all[i as int]));
                    }
                    match organization_from_json(&items[i]) {
                        Some(item) => {
                            out.push(item);
                        },
                        None => {
                            assert(organization_of_json(all[i as int]) is None);
                            return None;
                        },
                    }
                    i += 1;
                }
                proof {
                    assert forall|k: int| 0 <= k < all.len() implies organization_of_json(
                        #[trigger] all[k],
                    ) is Some by {
                        assert(organization_of_json(all[k]) == Some(out@[k].deep_view()));
                    }
                    assert(out.deep_view() =~= organizations_in(doc@, name@)->0);
                }
                Some(out)
            },
            _ => None,
        },
        None => None,
    }
}

/// Reads the member `name` of `doc` as a list of roles held.
fn roles_from(doc: &Json, name: &str) -> (read: Option<Vec<Roles>>)
    ensures
        read.deep_view() == roles_in(doc@, name@),
    decreases doc@, 0nat,
{
    match doc.get(name) {
        Some(found) => match found {
            Json::Array(items) => {
                proof {
                    lemma_array_view(found);
                    lemma_member_smaller(doc@, name@);
                }
                let ghost all = found@->Array_0;
                let mut out: Vec<Roles> = Vec::new();
                let mut i: usize = 0;
                while i < items.len()
                    invariant
                        i <= items.len(),
                        out@.len() == i,
                        doc@.get(name@) == Some(found@),
                        found@ == JsonValue::Array(all),
                        all.len() == items@.len(),
                        forall|k: int| 0 <= k < items@.len() ==> all[k] == items@[k]@,
                        forall|k: int|
                            0 <= k < i ==> roles_of_json(all[k]) == Some(
                                #[trigger] out@[k].deep_view(),
                            ),
                    decreases items.len() - i,
                {
                    proof {
                        lemma_member_smaller(doc@, name@);
                        assert(decreases_to!(all => all[i as int]));
                    }
                    match roles_from_json(&items[i]) {
                        Some(item) => {
                            out.push(item);
                        },
                        None => {
                            assert(roles_of_json(all[i as int]) is None);
                            return None;
                        },
                    }
                    i += 1;
                }
                proof {
                    assert forall|k: int| 0 <= k < all.len() implies roles_of_json(
                        #[trigger] all[k],
                    ) is Some by {
                        assert(roles_of_json(all[k]) == Some(out@[k].deep_view()));
                    }
                    assert(out.deep_view() =~= roles_in(doc@, name@)->0);
                }
                Some(out)
            },
            _ => None,
        },
        None => None,
    }
}

/// Reads the member `name` of `doc` as a list of users that may be missing or
/// null.
fn users_from(doc: &Json, name: &str) -> (read: Option<Option<Vec<User>>>)
    ensures
        read.deep_view() == users_in(doc@, name@),
    decreases doc@, 0nat,
{
    match doc.get(name) {
        None => Some(None),
        Some(found) => match found {
            Json::Null => Some(None),
            Json::Array(items) => {
                proof {
                    lemma_array_view(found);
                    lemma_member_smaller(doc@, name@);
                }
                let ghost all = found@->Array_0;
                let mut out: Vec<User> = Vec::new();
                let mut i: usize = 0;
                while i < items.len()
                    invariant
                        i <= items.len(),
                        out@.len() == i,
                        doc@.get(name@) == Some(found@),
                        found@ == JsonValue::Array(all),
                        all.len() == items@.len(),
                        forall|k: int| 0 <= k < items@.len() ==> all[k] == items@[k]@,
                        forall|k: int|
                            0 <= k < i ==> user_of_json(all[k]) == Some(
                                #[trigger] out@[k].deep_view(),
                            ),
                    decreases items.len() - i,
                {
                    proof {
                        lemma_member_smaller(doc@, name@);
                        assert(decreases_to!(all => all[i as int]));
                    }
                    match user_from_json(&items[i]) {
                        Some(item) => {
                            out.push(item);
                        },
                        None => {
                            assert(user_of_json(all[i as int]) is None);
                            return None;
                        },
                    }
                    i += 1;
                }
                proof {
                    assert forall|k: int| 0 <= k < all.len() implies user_of_json(
                        #[trigger] all[k],
                    ) is Some by {
                        assert(user_of_json(all[k]) == Some(out@[k].deep_view()));
                    }
                    assert(out.deep_view() =~= users_in(doc@, name@)->0->0);
                }
                Some(Some(out))
            },
            _ => None,
        },
    }
}

/// Reads a document as a role held.
pub fn roles_from_json(doc: &Json) -> (read: Option<Roles>)
    ensures
        read.deep_view() == roles_of_json(doc@),
    decreases doc@, 1nat,
{
    if !doc.is_object() {
        return None;
    }
    let organization = organization_from(doc, "organization")?;
    let role = field::<Role>(doc, "role")?;
    Some(Roles { organization, role })
}

/// Reads a document as a user.
pub fn user_from_json(doc: &Json) -> (read: Option<User>)
    ensures
        read.deep_view() == user_of_json(doc@),
    decreases doc@, 1nat,
{
    if !doc.is_object() {
        return None;
    }
    let phone_number = field::<String>(doc, "phone_number")?;
    let double_auth_enabled = field::<bool>(doc, "double_auth_enabled")?;
    let firstname = field::<String>(doc, "firstname")?;
    let lastname = field::<String>(doc, "lastname")?;
    let creation_date = field::<Date>(doc, "creation_date")?;
    let ssh_public_keys = field::<Vec<SshKey>>(doc, "ssh_public_keys")?;
    let id = field::<UserId>(doc, "id")?;
    let organizations = organizations_from(doc, "organizations")?;
    let modification_date = optional_field::<Date>(doc, "modification_date")?;
    let roles = roles_from(doc, "roles")?;
    let fullname = field::<String>(doc, "fullname")?;
    let email = field::<String>(doc, "email")?;
    let user = User {
        phone_number,
        double_auth_enabled,
        firstname,
        lastname,
        creation_date,
        ssh_public_keys,
        id,
        organizations,
        modification_date,
        roles,
        fullname,
        email,
    };
    proof {
        assert(user_view(user).organizations =~= user.organizations.deep_view());
        assert(user_view(user).roles =~= user.roles.deep_view());
    }
    Some(user)
}

/// Reads a document as an organization.
pub fn organization_from_json(doc: &Json) -> (read: Option<Organization>)
    ensures
        read.deep_view() == organization_of_json(doc@),
    decreases doc@, 1nat,
{
    if !doc.is_object() {
        return None;
    }
    let id = field::<OrganizationId>(doc, "id")?;
    let name = field::<String>(doc, "name")?;
    let users = users_from(doc, "users")?;
    let organization = Organization { id, name, users };
    proof {
        if organization.users is Some {
            assert(organization_view(organization).users->0 =~= organization.users->0.deep_view());
        }
    }
    Some(organization)
}

impl FromJson for Roles {
    open spec fn of_json(doc: JsonValue) -> Option<RolesView> {
        roles_of_json(doc)
    }

    fn from_json(doc: &Json) -> (read: Option<Roles>) {
        roles_from_json(doc)
    }
}

impl FromJson for User {
    open spec fn of_json(doc: JsonValue) -> Option<UserView> {
        user_of_json(doc)
    }

    fn from_json(doc: &Json) -> (read: Option<User>) {
        user_from_json(doc)
    }
}

impl FromJson for Organization {
    open spec fn of_json(doc: JsonValue) -> Option<OrganizationView> {
        organization_of_json(doc)
    }

    fn from_json(doc: &Json) -> (read: Option<Organization>) {
        organization_from_json(doc)
    }
}

} // verus!
