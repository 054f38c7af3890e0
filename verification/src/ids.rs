//! Identifiers: each kind of resource has a type of its own, so that the
//! identifier of one kind cannot be handed over where another is wanted.

use vstd::prelude::*;
use vstd::std_specs::convert::{FromSpec, FromSpecImpl};
use crate::json::{Json, JsonValue};
use crate::shape::{FromJson, ToJson};

verus! {

/// The identifier of a token: an opaque text, kept as it was given.
#[derive(Debug, PartialEq, Eq)]
pub struct TokenId(String);

impl View for TokenId {
    type V = Seq<char>;

    closed spec fn view(&self) -> Seq<char> {
        self.0@
    }
}

impl DeepView for TokenId {
    type V = Seq<char>;

    open spec fn deep_view(&self) -> Seq<char> {
        self@
    }
}

impl TokenId {
    /// The identifier's text.
    pub fn as_str(&self) -> (text: &str)
        ensures
            text@ == self@,
    {
        self.0.as_str()
    }
}

impl Clone for TokenId {
    fn clone(&self) -> (copy: TokenId)
        ensures
            copy@ == self@,
    {
        TokenId(self.0.clone())
    }
}

impl FromJson for TokenId {
    open spec fn of_json(doc: JsonValue) -> Option<Seq<char>> {
        String::of_json(doc)
    }

    fn from_json(doc: &Json) -> (read: Option<TokenId>) {
        match String::from_json(doc) {
            Some(text) => Some(TokenId(text)),
            None => None,
        }
    }
}

impl FromSpecImpl<String> for TokenId {
    open spec fn obeys_from_spec() -> bool {
        true
    }

    closed spec fn from_spec(text: String) -> TokenId {
        TokenId(text)
    }
}

impl From<String> for TokenId {
    fn from(text: String) -> (id: TokenId)
        ensures
            id@ == text@,
    {
        TokenId(text)
    }
}

/// What `from` gives for a `&str` is stated on `from` itself: its text is the
/// text given.
impl FromSpecImpl<&str> for TokenId {
    open spec fn obeys_from_spec() -> bool {
        false
    }

    closed spec fn from_spec(text: &str) -> TokenId {
        arbitrary()
    }
}

impl From<&str> for TokenId {
    fn from(text: &str) -> (id: TokenId)
        ensures
            id@ == text@,
    {
        TokenId(text.to_owned())
    }
}

/// Wrapping a text as the identifier of a token and reading the identifier's text
/// gives the text back.
pub proof fn lemma_token_id_round_trip(text: String)
    ensures
        <TokenId as FromSpec<String>>::from_spec(text)@ == text@,
{
}

/// The identifier of an organization: an opaque text, kept as it was given.
#[derive(Debug, PartialEq, Eq)]
pub struct OrganizationId(String);

impl View for OrganizationId {
    type V = Seq<char>;

    closed spec fn view(&self) -> Seq<char> {
        self.0@
    }
}

impl DeepView for OrganizationId {
    type V = Seq<char>;

    open spec fn deep_view(&self) -> Seq<char> {
        self@
    }
}

impl OrganizationId {
    /// The identifier's text.
    pub fn as_str(&self) -> (text: &str)
        ensures
            text@ == self@,
    {
        self.0.as_str()
    }
}

impl Clone for OrganizationId {
    fn clone(&self) -> (copy: OrganizationId)
        ensures
            copy@ == self@,
    {
        OrganizationId(self.0.clone())
    }
}

impl FromJson for OrganizationId {
    open spec fn of_json(doc: JsonValue) -> Option<Seq<char>> {
        String::of_json(doc)
    }

    fn from_json(doc: &Json) -> (read: Option<OrganizationId>) {
        match String::from_json(doc) {
            Some(text) => Some(OrganizationId(text)),
            None => None,
        }
    }
}

impl ToJson for OrganizationId {
    open spec fn json(&self) -> JsonValue {
        JsonValue::Str(self@)
    }

    fn to_json(&self) -> (doc: Json) {
        Json::Str(self.0.clone())
    }
}

impl FromSpecImpl<String> for OrganizationId {
    open spec fn obeys_from_spec() -> bool {
        true
    }

    closed spec fn from_spec(text: String) -> OrganizationId {
        OrganizationId(text)
    }
}

impl From<String> for OrganizationId {
    fn from(text: String) -> (id: OrganizationId)
        ensures
            id@ == text@,
    {
        OrganizationId(text)
    }
}

/// What `from` gives for a `&str` is stated on `from` itself: its text is the
/// text given.
impl FromSpecImpl<&str> for OrganizationId {
    open spec fn obeys_from_spec() -> bool {
        false
    }

    closed spec fn from_spec(text: &str) -> OrganizationId {
        arbitrary()
    }
}

impl From<&str> for OrganizationId {
    fn from(text: &str) -> (id: OrganizationId)
        ensures
            id@ == text@,
    {
        OrganizationId(text.to_owned())
    }
}

/// Wrapping a text as the identifier of an organization and reading the identifier's text
/// gives the text back.
pub proof fn lemma_organization_id_round_trip(text: String)
    ensures
        <OrganizationId as FromSpec<String>>::from_spec(text)@ == text@,
{
}

/// The identifier of a role: an opaque text, kept as it was given.
#[derive(Debug, PartialEq, Eq)]
pub struct RoleId(String);

impl View for RoleId {
    type V = Seq<char>;

    closed spec fn view(&self) -> Seq<char> {
        self.0@
    }
}

impl DeepView for RoleId {
    type V = Seq<char>;

    open spec fn deep_view(&self) -> Seq<char> {
        self@
    }
}

impl RoleId {
    /// The identifier's text.
    pub fn as_str(&self) -> (text: &str)
        ensures
            text@ == self@,
    {
        self.0.as_str()
    }
}

impl Clone for RoleId {
    fn clone(&self) -> (copy: RoleId)
        ensures
            copy@ == self@,
    {
        RoleId(self.0.clone())
    }
}

impl FromJson for RoleId {
    open spec fn of_json(doc: JsonValue) -> Option<Seq<char>> {
        String::of_json(doc)
    }

    fn from_json(doc: &Json) -> (read: Option<RoleId>) {
        match String::from_json(doc) {
            Some(text) => Some(RoleId(text)),
            None => None,
        }
    }
}

impl ToJson for RoleId {
    open spec fn json(&self) -> JsonValue {
        JsonValue::Str(self@)
    }

    fn to_json(&self) -> (doc: Json) {
        Json::Str(self.0.clone())
    }
}

impl FromSpecImpl<String> for RoleId {
    open spec fn obeys_from_spec() -> bool {
        true
    }

    closed spec fn from_spec(text: String) -> RoleId {
        RoleId(text)
    }
}

impl From<String> for RoleId {
    fn from(text: String) -> (id: RoleId)
        ensures
            id@ == text@,
    {
        RoleId(text)
    }
}

/// What `from` gives for a `&str` is stated on `from` itself: its text is the
/// text given.
impl FromSpecImpl<&str> for RoleId {
    open spec fn obeys_from_spec() -> bool {
        false
    }

    closed spec fn from_spec(text: &str) -> RoleId {
        arbitrary()
    }
}

impl From<&str> for RoleId {
    fn from(text: &str) -> (id: RoleId)
        ensures
            id@ == text@,
    {
        RoleId(text.to_owned())
    }
}

/// Wrapping a text as the identifier of a role and reading the identifier's text
/// gives the text back.
pub proof fn lemma_role_id_round_trip(text: String)
    ensures
        <RoleId as FromSpec<String>>::from_spec(text)@ == text@,
{
}

/// The identifier of a user: an opaque text, kept as it was given.
#[derive(Debug, PartialEq, Eq)]
pub struct UserId(String);

impl View for UserId {
    type V = Seq<char>;

    closed spec fn view(&self) -> Seq<char> {
        self.0@
    }
}

impl DeepView for UserId {
    type V = Seq<char>;

    open spec fn deep_view(&self) -> Seq<char> {
        self@
    }
}

impl UserId {
    /// The identifier's text.
    pub fn as_str(&self) -> (text: &str)
        ensures
            text@ == self@,
    {
        self.0.as_str()
    }
}

impl Clone for UserId {
    fn clone(&self) -> (copy: UserId)
        ensures
            copy@ == self@,
    {
        UserId(self.0.clone())
    }
}

impl FromJson for UserId {
    open spec fn of_json(doc: JsonValue) -> Option<Seq<char>> {
        String::of_json(doc)
    }

    fn from_json(doc: &Json) -> (read: Option<UserId>) {
        match String::from_json(doc) {
            Some(text) => Some(UserId(text)),
            None => None,
        }
    }
}

impl ToJson for UserId {
    open spec fn json(&self) -> JsonValue {
        JsonValue::Str(self@)
    }

    fn to_json(&self) -> (doc: Json) {
        Json::Str(self.0.clone())
    }
}

impl FromSpecImpl<String> for UserId {
    open spec fn obeys_from_spec() -> bool {
        true
    }

    closed spec fn from_spec(text: String) -> UserId {
        UserId(text)
    }
}

impl From<String> for UserId {
    fn from(text: String) -> (id: UserId)
        ensures
            id@ == text@,
    {
        UserId(text)
    }
}

/// What `from` gives for a `&str` is stated on `from` itself: its text is the
/// text given.
impl FromSpecImpl<&str> for UserId {
    open spec fn obeys_from_spec() -> bool {
        false
    }

    closed spec fn from_spec(text: &str) -> UserId {
        arbitrary()
    }
}

impl From<&str> for UserId {
    fn from(text: &str) -> (id: UserId)
        ensures
            id@ == text@,
    {
        UserId(text.to_owned())
    }
}

/// Wrapping a text as the identifier of a user and reading the identifier's text
/// gives the text back.
pub proof fn lemma_user_id_round_trip(text: String)
    ensures
        <UserId as FromSpec<String>>::from_spec(text)@ == text@,
{
}

/// The identifier of an image: an opaque text, kept as it was given.
#[derive(Debug, PartialEq, Eq)]
pub struct ImageId(String);

impl View for ImageId {
    type V = Seq<char>;

    closed spec fn view(&self) -> Seq<char> {
        self.0@
    }
}

impl DeepView for ImageId {
    type V = Seq<char>;

    open spec fn deep_view(&self) -> Seq<char> {
        self@
    }
}

impl ImageId {
    /// The identifier's text.
    pub fn as_str(&self) -> (text: &str)
        ensures
            text@ == self@,
    {
        self.0.as_str()
    }
}

impl Clone for ImageId {
    fn clone(&self) -> (copy: ImageId)
        ensures
            copy@ == self@,
    {
        ImageId(self.0.clone())
    }
}

impl FromJson for ImageId {
    open spec fn of_json(doc: JsonValue) -> Option<Seq<char>> {
        String::of_json(doc)
    }

    fn from_json(doc: &Json) -> (read: Option<ImageId>) {
        match String::from_json(doc) {
            Some(text) => Some(ImageId(text)),
            None => None,
        }
    }
}

impl ToJson for ImageId {
    open spec fn json(&self) -> JsonValue {
        JsonValue::Str(self@)
    }

    fn to_json(&self) -> (doc: Json) {
        Json::Str(self.0.clone())
    }
}

impl FromSpecImpl<String> for ImageId {
    open spec fn obeys_from_spec() -> bool {
        true
    }

    closed spec fn from_spec(text: String) -> ImageId {
        ImageId(text)
    }
}

impl From<String> for ImageId {
    fn from(text: String) -> (id: ImageId)
        ensures
            id@ == text@,
    {
        ImageId(text)
    }
}

/// What `from` gives for a `&str` is stated on `from` itself: its text is the
/// text given.
impl FromSpecImpl<&str> for ImageId {
    open spec fn obeys_from_spec() -> bool {
        false
    }

    closed spec fn from_spec(text: &str) -> ImageId {
        arbitrary()
    }
}

impl From<&str> for ImageId {
    fn from(text: &str) -> (id: ImageId)
        ensures
            id@ == text@,
    {
        ImageId(text.to_owned())
    }
}

/// Wrapping a text as the identifier of an image and reading the identifier's text
/// gives the text back.
pub proof fn lemma_image_id_round_trip(text: String)
    ensures
        <ImageId as FromSpec<String>>::from_spec(text)@ == text@,
{
}

/// The identifier of a server: an opaque text, kept as it was given.
#[derive(Debug, PartialEq, Eq)]
pub struct ServerId(String);

impl View for ServerId {
    type V = Seq<char>;

    closed spec fn view(&self) -> Seq<char> {
        self.0@
    }
}

impl DeepView for ServerId {
    type V = Seq<char>;

    open spec fn deep_view(&self) -> Seq<char> {
        self@
    }
}

impl ServerId {
    /// The identifier's text.
    pub fn as_str(&self) -> (text: &str)
        ensures
            text@ == self@,
    {
        self.0.as_str()
    }
}

impl Clone for ServerId {
    fn clone(&self) -> (copy: ServerId)
        ensures
            copy@ == self@,
    {
        ServerId(self.0.clone())
    }
}

impl FromJson for ServerId {
    open spec fn of_json(doc: JsonValue) -> Option<Seq<char>> {
        String::of_json(doc)
    }

    fn from_json(doc: &Json) -> (read: Option<ServerId>) {
        match String::from_json(doc) {
            Some(text) => Some(ServerId(text)),
            None => None,
        }
    }
}

impl ToJson for ServerId {
    open spec fn json(&self) -> JsonValue {
        JsonValue::Str(self@)
    }

    fn to_json(&self) -> (doc: Json) {
        Json::Str(self.0.clone())
    }
}

impl FromSpecImpl<String> for ServerId {
    open spec fn obeys_from_spec() -> bool {
        true
    }

    closed spec fn from_spec(text: String) -> ServerId {
        ServerId(text)
    }
}

impl From<String> for ServerId {
    fn from(text: String) -> (id: ServerId)
        ensures
            id@ == text@,
    {
        ServerId(text)
    }
}

/// What `from` gives for a `&str` is stated on `from` itself: its text is the
/// text given.
impl FromSpecImpl<&str> for ServerId {
    open spec fn obeys_from_spec() -> bool {
        false
    }

    closed spec fn from_spec(text: &str) -> ServerId {
        arbitrary()
    }
}

impl From<&str> for ServerId {
    fn from(text: &str) -> (id: ServerId)
        ensures
            id@ == text@,
    {
        ServerId(text.to_owned())
    }
}

/// Wrapping a text as the identifier of a server and reading the identifier's text
/// gives the text back.
pub proof fn lemma_server_id_round_trip(text: String)
    ensures
        <ServerId as FromSpec<String>>::from_spec(text)@ == text@,
{
}

/// The identifier of a volume: an opaque text, kept as it was given.
#[derive(Debug, PartialEq, Eq)]
pub struct VolumeId(String);

impl View for VolumeId {
    type V = Seq<char>;

    closed spec fn view(&self) -> Seq<char> {
        self.0@
    }
}

impl DeepView for VolumeId {
    type V = Seq<char>;

    open spec fn deep_view(&self) -> Seq<char> {
        self@
    }
}

impl VolumeId {
    /// The identifier's text.
    pub fn as_str(&self) -> (text: &str)
        ensures
            text@ == self@,
    {
        self.0.as_str()
    }
}

impl Clone for VolumeId {
    fn clone(&self) -> (copy: VolumeId)
        ensures
            copy@ == self@,
    {
        VolumeId(self.0.clone())
    }
}

impl FromJson for VolumeId {
    open spec fn of_json(doc: JsonValue) -> Option<Seq<char>> {
        String::of_json(doc)
    }

    fn from_json(doc: &Json) -> (read: Option<VolumeId>) {
        match String::from_json(doc) {
            Some(text) => Some(VolumeId(text)),
            None => None,
        }
    }
}

impl ToJson for VolumeId {
    open spec fn json(&self) -> JsonValue {
        JsonValue::Str(self@)
    }

    fn to_json(&self) -> (doc: Json) {
        Json::Str(self.0.clone())
    }
}

impl FromSpecImpl<String> for VolumeId {
    open spec fn obeys_from_spec() -> bool {
        true
    }

    closed spec fn from_spec(text: String) -> VolumeId {
        VolumeId(text)
    }
}

impl From<String> for VolumeId {
    fn from(text: String) -> (id: VolumeId)
        ensures
            id@ == text@,
    {
        VolumeId(text)
    }
}

/// What `from` gives for a `&str` is stated on `from` itself: its text is the
/// text given.
impl FromSpecImpl<&str> for VolumeId {
    open spec fn obeys_from_spec() -> bool {
        false
    }

    closed spec fn from_spec(text: &str) -> VolumeId {
        arbitrary()
    }
}

impl From<&str> for VolumeId {
    fn from(text: &str) -> (id: VolumeId)
        ensures
            id@ == text@,
    {
        VolumeId(text.to_owned())
    }
}

/// Wrapping a text as the identifier of a volume and reading the identifier's text
/// gives the text back.
pub proof fn lemma_volume_id_round_trip(text: String)
    ensures
        <VolumeId as FromSpec<String>>::from_spec(text)@ == text@,
{
}

/// The identifier of an SSH key: an opaque text, kept as it was given.
#[derive(Debug, PartialEq, Eq)]
pub struct SshKeyId(String);

impl View for SshKeyId {
    type V = Seq<char>;

    closed spec fn view(&self) -> Seq<char> {
        self.0@
    }
}

impl DeepView for SshKeyId {
    type V = Seq<char>;

    open spec fn deep_view(&self) -> Seq<char> {
        self@
    }
}

impl SshKeyId {
    /// The identifier's text.
    pub fn as_str(&self) -> (text: &str)
        ensures
            text@ == self@,
    {
        self.0.as_str()
    }
}

impl Clone for SshKeyId {
    fn clone(&self) -> (copy: SshKeyId)
        ensures
            copy@ == self@,
    {
        SshKeyId(self.0.clone())
    }
}

impl FromJson for SshKeyId {
    open spec fn of_json(doc: JsonValue) -> Option<Seq<char>> {
        String::of_json(doc)
    }

    fn from_json(doc: &Json) -> (read: Option<SshKeyId>) {
        match String::from_json(doc) {
            Some(text) => Some(SshKeyId(text)),
            None => None,
        }
    }
}

impl FromSpecImpl<String> for SshKeyId {
    open spec fn obeys_from_spec() -> bool {
        true
    }

    closed spec fn from_spec(text: String) -> SshKeyId {
        SshKeyId(text)
    }
}

impl From<String> for SshKeyId {
    fn from(text: String) -> (id: SshKeyId)
        ensures
            id@ == text@,
    {
        SshKeyId(text)
    }
}

/// What `from` gives for a `&str` is stated on `from` itself: its text is the
/// text given.
impl FromSpecImpl<&str> for SshKeyId {
    open spec fn obeys_from_spec() -> bool {
        false
    }

    closed spec fn from_spec(text: &str) -> SshKeyId {
        arbitrary()
    }
}

impl From<&str> for SshKeyId {
    fn from(text: &str) -> (id: SshKeyId)
        ensures
            id@ == text@,
    {
        SshKeyId(text.to_owned())
    }
}

/// Wrapping a text as the identifier of an SSH key and reading the identifier's text
/// gives the text back.
pub proof fn lemma_ssh_key_id_round_trip(text: String)
    ensures
        <SshKeyId as FromSpec<String>>::from_spec(text)@ == text@,
{
}

/// The access key of a token: an opaque text, kept as the service sent it.
#[derive(Debug, PartialEq, Eq)]
pub struct AccessKey(String);

impl View for AccessKey {
    type V = Seq<char>;

    closed spec fn view(&self) -> Seq<char> {
        self.0@
    }
}

impl DeepView for AccessKey {
    type V = Seq<char>;

    open spec fn deep_view(&self) -> Seq<char> {
        self@
    }
}

impl AccessKey {
    /// The key's text.
    pub fn as_str(&self) -> (text: &str)
        ensures
            text@ == self@,
    {
        self.0.as_str()
    }
}

impl Clone for AccessKey {
    fn clone(&self) -> (copy: AccessKey)
        ensures
            copy@ == self@,
    {
        AccessKey(self.0.clone())
    }
}

impl FromJson for AccessKey {
    open spec fn of_json(doc: JsonValue) -> Option<Seq<char>> {
        String::of_json(doc)
    }

    fn from_json(doc: &Json) -> (read: Option<AccessKey>) {
        match String::from_json(doc) {
            Some(text) => Some(AccessKey(text)),
            None => None,
        }
    }
}

} // verus!
