//! The compute service: servers and what belongs to them.

use vstd::prelude::*;
use crate::ids::{ImageId, OrganizationId, ServerId, VolumeId};
use crate::ip::Ip;
use crate::json::{Json, JsonValue, Member, MemberValue, lemma_object_view};
use crate::shape::{FromJson, ToJson, Table, field, optional, optional_field, required};
use crate::text::same_text;

verus! {

/// The commercial offer that a server is rented under.
#[derive(Debug, Clone, Copy, PartialEq, Eq, Structural)]
pub enum CommercialType {
    Start1S,
}

impl CommercialType {
    /// The name that the service gives the offer.
    pub open spec fn tag_text(self) -> Seq<char> {
        match self {
            CommercialType::Start1S => "START1-S"@,
        }
    }

    /// What a name of the service stands for; nothing for any other text.
    pub open spec fn of_tag(text: Seq<char>) -> Option<CommercialType> {
        if text == "START1-S"@ {
            Some(CommercialType::Start1S)
        } else {
            None
        }
    }

    /// The name that the service gives the offer.
    pub fn tag(&self) -> (text: &'static str)
        ensures
            text@ == self.tag_text(),
    {
        match self {
            CommercialType::Start1S => "START1-S",
        }
    }

    /// Reads a name of the service.
    pub fn from_tag(text: &str) -> (read: Option<CommercialType>)
        ensures
            read == CommercialType::of_tag(text@),
    {
        if same_text(text, "START1-S") {
            Some(CommercialType::Start1S)
        } else {
            None
        }
    }
}

impl DeepView for CommercialType {
    type V = CommercialType;

    open spec fn deep_view(&self) -> CommercialType {
        *self
    }
}

impl FromJson for CommercialType {
    open spec fn of_json(doc: JsonValue) -> Option<CommercialType> {
        match doc {
            JsonValue::Str(text) => CommercialType::of_tag(text),
            _ => None,
        }
    }

    fn from_json(doc: &Json) -> (read: Option<CommercialType>) {
        match doc {
            Json::Str(text) => CommercialType::from_tag(text.as_str()),
            _ => None,
        }
    }
}

/// Each offer has a name of its own: reading the name that one is given gives it back.
pub proof fn lemma_commercial_type_tag_round_trip(value: CommercialType)
    ensures
        CommercialType::of_tag(value.tag_text()) == Some(value),
{
    reveal_strlit("START1-S");
}

impl ToJson for CommercialType {
    open spec fn json(&self) -> JsonValue {
        JsonValue::Str(self.tag_text())
    }

    fn to_json(&self) -> (doc: Json) {
        Json::Str(self.tag().to_owned())
    }
}

/// How a server boots.
#[derive(Debug, Clone, Copy, PartialEq, Eq, Structural)]
pub enum BootType {
    /// From its own disk.
    Local,
}

impl BootType {
    /// The name that the service gives the way to boot.
    pub open spec fn tag_text(self) -> Seq<char> {
        match self {
            BootType::Local => "local"@,
        }
    }

    /// What a name of the service stands for; nothing for any other text.
    pub open spec fn of_tag(text: Seq<char>) -> Option<BootType> {
        if text == "local"@ {
            Some(BootType::Local)
        } else {
            None
        }
    }

    /// The name that the service gives the way to boot.
    pub fn tag(&self) -> (text: &'static str)
        ensures
            text@ == self.tag_text(),
    {
        match self {
            BootType::Local => "local",
        }
    }

    /// Reads a name of the service.
    pub fn from_tag(text: &str) -> (read: Option<BootType>)
        ensures
            read == BootType::of_tag(text@),
    {
        if same_text(text, "local") {
            Some(BootType::Local)
        } else {
            None
        }
    }
}

impl DeepView for BootType {
    type V = BootType;

    open spec fn deep_view(&self) -> BootType {
        *self
    }
}

impl FromJson for BootType {
    open spec fn of_json(doc: JsonValue) -> Option<BootType> {
        match doc {
            JsonValue::Str(text) => BootType::of_tag(text),
            _ => None,
        }
    }

    fn from_json(doc: &Json) -> (read: Option<BootType>) {
        match doc {
            Json::Str(text) => BootType::from_tag(text.as_str()),
            _ => None,
        }
    }
}

/// Each way to boot has a name of its own: reading the name that one is given gives it back.
pub proof fn lemma_boot_type_tag_round_trip(value: BootType)
    ensures
        BootType::of_tag(value.tag_text()) == Some(value),
{
    reveal_strlit("local");
}

impl ToJson for BootType {
    open spec fn json(&self) -> JsonValue {
        JsonValue::Str(self.tag_text())
    }

    fn to_json(&self) -> (doc: Json) {
        Json::Str(self.tag().to_owned())
    }
}

/// The kind of a volume.
#[derive(Debug, Clone, Copy, PartialEq, Eq, Structural)]
pub enum VolumeType {
    /// A local solid-state disk.
    LSsd,
}

impl VolumeType {
    /// The name that the service gives the kind.
    pub open spec fn tag_text(self) -> Seq<char> {
        match self {
            VolumeType::LSsd => "l_ssd"@,
        }
    }

    /// What a name of the service stands for; nothing for any other text.
    pub open spec fn of_tag(text: Seq<char>) -> Option<VolumeType> {
        if text == "l_ssd"@ {
            Some(VolumeType::LSsd)
        } else {
            None
        }
    }

    /// The name that the service gives the kind.
    pub fn tag(&self) -> (text: &'static str)
        ensures
            text@ == self.tag_text(),
    {
        match self {
            VolumeType::LSsd => "l_ssd",
        }
    }

    /// Reads a name of the service.
    pub fn from_tag(text: &str) -> (read: Option<VolumeType>)
        ensures
            read == VolumeType::of_tag(text@),
    {
        if same_text(text, "l_ssd") {
            Some(VolumeType::LSsd)
        } else {
            None
        }
    }
}

impl DeepView for VolumeType {
    type V = VolumeType;

    open spec fn deep_view(&self) -> VolumeType {
        *self
    }
}

impl FromJson for VolumeType {
    open spec fn of_json(doc: JsonValue) -> Option<VolumeType> {
        match doc {
            JsonValue::Str(text) => VolumeType::of_tag(text),
            _ => None,
        }
    }

    fn from_json(doc: &Json) -> (read: Option<VolumeType>) {
        match doc {
            Json::Str(text) => VolumeType::from_tag(text.as_str()),
            _ => None,
        }
    }
}

/// Each kind has a name of its own: reading the name that one is given gives it back.
pub proof fn lemma_volume_type_tag_round_trip(value: VolumeType)
    ensures
        VolumeType::of_tag(value.tag_text()) == Some(value),
{
    reveal_strlit("l_ssd");
}

impl ToJson for VolumeType {
    open spec fn json(&self) -> JsonValue {
        JsonValue::Str(self.tag_text())
    }

    fn to_json(&self) -> (doc: Json) {
        Json::Str(self.tag().to_owned())
    }
}

/// The architecture of a server.
#[derive(Debug, Clone, Copy, PartialEq, Eq, Structural)]
pub enum Arch {
    X86_64,
}

impl Arch {
    /// The name that the service gives the architecture.
    pub open spec fn tag_text(self) -> Seq<char> {
        match self {
            Arch::X86_64 => "x86_64"@,
        }
    }

    /// What a name of the service stands for; nothing for any other text.
    pub open spec fn of_tag(text: Seq<char>) -> Option<Arch> {
        if text == "x86_64"@ {
            Some(Arch::X86_64)
        } else {
            None
        }
    }

    /// The name that the service gives the architecture.
    pub fn tag(&self) -> (text: &'static str)
        ensures
            text@ == self.tag_text(),
    {
        match self {
            Arch::X86_64 => "x86_64",
        }
    }

    /// Reads a name of the service.
    pub fn from_tag(text: &str) -> (read: Option<Arch>)
        ensures
            read == Arch::of_tag(text@),
    {
        if same_text(text, "x86_64") {
            Some(Arch::X86_64)
        } else {
            None
        }
    }
}

impl DeepView for Arch {
    type V = Arch;

    open spec fn deep_view(&self) -> Arch {
        *self
    }
}

impl FromJson for Arch {
    open spec fn of_json(doc: JsonValue) -> Option<Arch> {
        match doc {
            JsonValue::Str(text) => Arch::of_tag(text),
            _ => None,
        }
    }

    fn from_json(doc: &Json) -> (read: Option<Arch>) {
        match doc {
            Json::Str(text) => Arch::from_tag(text.as_str()),
            _ => None,
        }
    }
}

/// Each architecture has a name of its own: reading the name that one is given gives it back.
pub proof fn lemma_arch_tag_round_trip(value: Arch)
    ensures
        Arch::of_tag(value.tag_text()) == Some(value),
{
    reveal_strlit("x86_64");
}

impl ToJson for Arch {
    open spec fn json(&self) -> JsonValue {
        JsonValue::Str(self.tag_text())
    }

    fn to_json(&self) -> (doc: Json) {
        Json::Str(self.tag().to_owned())
    }
}

/// The state of a server.
#[derive(Debug, Clone, Copy, PartialEq, Eq, Structural)]
pub enum ServerState {
    Stopped,
    Running,
}

impl ServerState {
    /// The name that the service gives the state.
    pub open spec fn tag_text(self) -> Seq<char> {
        match self {
            ServerState::Stopped => "stopped"@,
            ServerState::Running => "running"@,
        }
    }

    /// What a name of the service stands for; nothing for any other text.
    pub open spec fn of_tag(text: Seq<char>) -> Option<ServerState> {
        if text == "stopped"@ {
            Some(ServerState::Stopped)
        } else if text == "running"@ {
            Some(ServerState::Running)
        } else {
            None
        }
    }

    /// The name that the service gives the state.
    pub fn tag(&self) -> (text: &'static str)
        ensures
            text@ == self.tag_text(),
    {
        match self {
            ServerState::Stopped => "stopped",
            ServerState::Running => "running",
        }
    }

    /// Reads a name of the service.
    pub fn from_tag(text: &str) -> (read: Option<ServerState>)
        ensures
            read == ServerState::of_tag(text@),
    {
        if same_text(text, "stopped") {
            Some(ServerState::Stopped)
        } else if same_text(text, "running") {
            Some(ServerState::Running)
        } else {
            None
        }
    }
}

impl DeepView for ServerState {
    type V = ServerState;

    open spec fn deep_view(&self) -> ServerState {
        *self
    }
}

impl FromJson for ServerState {
    open spec fn of_json(doc: JsonValue) -> Option<ServerState> {
        match doc {
            JsonValue::Str(text) => ServerState::of_tag(text),
            _ => None,
        }
    }

    fn from_json(doc: &Json) -> (read: Option<ServerState>) {
        match doc {
            Json::Str(text) => ServerState::from_tag(text.as_str()),
            _ => None,
        }
    }
}

/// Each state has a name of its own: reading the name that one is given gives it back.
pub proof fn lemma_server_state_tag_round_trip(value: ServerState)
    ensures
        ServerState::of_tag(value.tag_text()) == Some(value),
{
    reveal_strlit("stopped");
    reveal_strlit("running");
    assert("stopped"@.len() == 7);
    assert("running"@.len() == 7);
    assert("stopped"@[0] == 's' && "running"@[0] == 'r');
}

impl ToJson for ServerState {
    open spec fn json(&self) -> JsonValue {
        JsonValue::Str(self.tag_text())
    }

    fn to_json(&self) -> (doc: Json) {
        Json::Str(self.tag().to_owned())
    }
}

/// What a new server is to be.
#[derive(Debug, PartialEq, Eq)]
pub struct ServerOptions {
    /// The organization that the server is made for; the caller's own where
    /// none is given.
    pub organization: Option<OrganizationId>,
    pub name: String,
    pub image: ImageId,
    pub commercial_type: CommercialType,
    pub tags: Vec<String>,
    pub enable_ipv6: bool,
    pub boot_type: BootType,
}

impl ToJson for ServerOptions {
    open spec fn json(&self) -> JsonValue {
        JsonValue::Object(
            seq![
                MemberValue { name: "organization"@, value: self.organization.json() },
                MemberValue { name: "name"@, value: self.name.json() },
                MemberValue { name: "image"@, value: self.image.json() },
                MemberValue { name: "commercial_type"@, value: self.commercial_type.json() },
                MemberValue { name: "tags"@, value: self.tags.json() },
                MemberValue { name: "enable_ipv6"@, value: self.enable_ipv6.json() },
                MemberValue { name: "boot_type"@, value: self.boot_type.json() },
            ],
        )
    }

    fn to_json(&self) -> (doc: Json) {
        let mut members: Vec<Member> = Vec::new();
        members.push(
            Member { name: "organization".to_owned(), value: self.organization.to_json() },
        );
        members.push(Member { name: "name".to_owned(), value: self.name.to_json() });
        members.push(Member { name: "image".to_owned(), value: self.image.to_json() });
        members.push(
            Member { name: "commercial_type".to_owned(), value: self.commercial_type.to_json() },
        );
        members.push(Member { name: "tags".to_owned(), value: self.tags.to_json() });
        members.push(Member { name: "enable_ipv6".to_owned(), value: self.enable_ipv6.to_json() });
        members.push(Member { name: "boot_type".to_owned(), value: self.boot_type.to_json() });
        let doc = Json::Object(members);
        proof {
            lemma_object_view(&doc);
            assert(doc@->Object_0 =~= self.json()->Object_0);
        }
        doc
    }
}

/// The image that a server was made from.
#[derive(Debug, PartialEq, Eq)]
pub struct Image {
    pub id: ImageId,
    pub name: String,
}

/// The value of an image.
pub struct ImageView {
    pub id: Seq<char>,
    pub name: Seq<char>,
}

impl DeepView for Image {
    type V = ImageView;

    open spec fn deep_view(&self) -> ImageView {
        ImageView {
            id: self.id.deep_view(),
            name: self.name.deep_view(),
        }
    }
}

impl Image {
    /// Whether a document has every member that an image needs,
    /// each of its own shape.
    pub open spec fn readable(doc: JsonValue) -> bool {
        &&& doc is Object
        &&& required::<ImageId>(doc.get("id"@)) is Some
        &&& required::<String>(doc.get("name"@)) is Some
    }
}

impl FromJson for Image {
    open spec fn of_json(doc: JsonValue) -> Option<ImageView> {
        if Image::readable(doc) {
            Some(
                ImageView {
                    id: required::<ImageId>(doc.get("id"@))->0,
                    name: required::<String>(doc.get("name"@))->0,
                },
            )
        } else {
            None
        }
    }

    fn from_json(doc: &Json) -> (read: Option<Image>) {
        if !doc.is_object() {
            return None;
        }
        let id = field::<ImageId>(doc, "id")?;
        let name = field::<String>(doc, "name")?;
        Some(Image { id, name })
    }
}

/// A server, in short: as a volume names the server that it belongs to.
#[derive(Debug, PartialEq, Eq)]
pub struct ShortServer {
    pub id: ServerId,
    pub name: String,
}

/// The value of a server in short.
pub struct ShortServerView {
    pub id: Seq<char>,
    pub name: Seq<char>,
}

impl DeepView for ShortServer {
    type V = ShortServerView;

    open spec fn deep_view(&self) -> ShortServerView {
        ShortServerView {
            id: self.id.deep_view(),
            name: self.name.deep_view(),
        }
    }
}

impl ShortServer {
    /// Whether a document has every member that a server in short needs,
    /// each of its own shape.
    pub open spec fn readable(doc: JsonValue) -> bool {
        &&& doc is Object
        &&& required::<ServerId>(doc.get("id"@)) is Some
        &&& required::<String>(doc.get("name"@)) is Some
    }
}

impl FromJson for ShortServer {
    open spec fn of_json(doc: JsonValue) -> Option<ShortServerView> {
        if ShortServer::readable(doc) {
            Some(
                ShortServerView {
                    id: required::<ServerId>(doc.get("id"@))->0,
                    name: required::<String>(doc.get("name"@))->0,
                },
            )
        } else {
            None
        }
    }

    fn from_json(doc: &Json) -> (read: Option<ShortServer>) {
        if !doc.is_object() {
            return None;
        }
        let id = field::<ServerId>(doc, "id")?;
        let name = field::<String>(doc, "name")?;
        Some(ShortServer { id, name })
    }
}

impl ToJson for ShortServer {
    open spec fn json(&self) -> JsonValue {
        JsonValue::Object(
            seq![
                MemberValue { name: "id"@, value: self.id.json() },
                MemberValue { name: "name"@, value: self.name.json() },
            ],
        )
    }

    fn to_json(&self) -> (doc: Json) {
        let mut members: Vec<Member> = Vec::new();
        members.push(Member { name: "id".to_owned(), value: self.id.to_json() });
        members.push(Member { name: "name".to_owned(), value: self.name.to_json() });
        let doc = Json::Object(members);
        proof {
            lemma_object_view(&doc);
            assert(doc@->Object_0 =~= self.json()->Object_0);
        }
        doc
    }
}

/// A volume of a server.
#[derive(Debug, PartialEq, Eq)]
pub struct Volume {
    pub export_uri: Option<String>,
    pub id: VolumeId,
    pub name: String,
    pub organization: OrganizationId,
    pub server: ShortServer,
    /// The size in bytes.
    pub size: usize,
    pub volume_type: VolumeType,
}

/// The value of a volume.
pub struct VolumeView {
    pub export_uri: Option<Seq<char>>,
    pub id: Seq<char>,
    pub name: Seq<char>,
    pub organization: Seq<char>,
    pub server: ShortServerView,
    pub size: usize,
    pub volume_type: VolumeType,
}

impl DeepView for Volume {
    type V = VolumeView;

    open spec fn deep_view(&self) -> VolumeView {
        VolumeView {
            export_uri: self.export_uri.deep_view(),
            id: self.id.deep_view(),
            name: self.name.deep_view(),
            organization: self.organization.deep_view(),
            server: self.server.deep_view(),
            size: self.size.deep_view(),
            volume_type: self.volume_type.deep_view(),
        }
    }
}

impl Volume {
    /// Whether a document has every member that a volume needs,
    /// each of its own shape.
    pub open spec fn readable(doc: JsonValue) -> bool {
        &&& doc is Object
        &&& optional::<String>(doc.get("export_uri"@)) is Some
        &&& required::<VolumeId>(doc.get("id"@)) is Some
        &&& required::<String>(doc.get("name"@)) is Some
        &&& required::<OrganizationId>(doc.get("organization"@)) is Some
        &&& required::<ShortServer>(doc.get("server"@)) is Some
        &&& required::<usize>(doc.get("size"@)) is Some
        &&& required::<VolumeType>(doc.get("volume_type"@)) is Some
    }
}

impl FromJson for Volume {
    open spec fn of_json(doc: JsonValue) -> Option<VolumeView> {
        if Volume::readable(doc) {
            Some(
                VolumeView {
                    export_uri: optional::<String>(doc.get("export_uri"@))->0,
                    id: required::<VolumeId>(doc.get("id"@))->0,
                    name: required::<String>(doc.get("name"@))->0,
                    organization: required::<OrganizationId>(doc.get("organization"@))->0,
                    server: required::<ShortServer>(doc.get("server"@))->0,
                    size: required::<usize>(doc.get("size"@))->0,
                    volume_type: required::<VolumeType>(doc.get("volume_type"@))->0,
                },
            )
        } else {
            None
        }
    }

    fn from_json(doc: &Json) -> (read: Option<Volume>) {
        if !doc.is_object() {
            return None;
        }
        let export_uri = optional_field::<String>(doc, "export_uri")?;
        let id = field::<VolumeId>(doc, "id")?;
        let name = field::<String>(doc, "name")?;
        let organization = field::<OrganizationId>(doc, "organization")?;
        let server = field::<ShortServer>(doc, "server")?;
        let size = field::<usize>(doc, "size")?;
        let volume_type = field::<VolumeType>(doc, "volume_type")?;
        Some(Volume { export_uri, id, name, organization, server, size, volume_type })
    }
}

/// A server, as the service describes it.
#[derive(Debug, PartialEq, Eq)]
pub struct Server {
    pub bootscript: Option<String>,
    pub dynamic_ip_required: bool,
    pub id: ServerId,
    pub image: Image,
    pub name: String,
    pub organization: OrganizationId,
    pub private_ip: Option<Ip>,
    pub public_ip: Option<Ip>,
    pub enable_ipv6: bool,
    pub state: ServerState,
    pub ipv6: Option<Ip>,
    pub commercial_type: CommercialType,
    pub arch: Arch,
    pub boot_type: BootType,
    pub tags: Vec<String>,
    /// The volumes, each under the name of its slot.
    pub volumes: Table<Volume>,
}

/// The value of a server.
pub struct ServerView {
    pub bootscript: Option<Seq<char>>,
    pub dynamic_ip_required: bool,
    pub id: Seq<char>,
    pub image: ImageView,
    pub name: Seq<char>,
    pub organization: Seq<char>,
    pub private_ip: Option<Ip>,
    pub public_ip: Option<Ip>,
    pub enable_ipv6: bool,
    pub state: ServerState,
    pub ipv6: Option<Ip>,
    pub commercial_type: CommercialType,
    pub arch: Arch,
    pub boot_type: BootType,
    pub tags: Seq<Seq<char>>,
    pub volumes: Seq<(Seq<char>, VolumeView)>,
}

impl DeepView for Server {
    type V = ServerView;

    open spec fn deep_view(&self) -> ServerView {
        ServerView {
            bootscript: self.bootscript.deep_view(),
            dynamic_ip_required: self.dynamic_ip_required.deep_view(),
            id: self.id.deep_view(),
            image: self.image.deep_view(),
            name: self.name.deep_view(),
            organization: self.organization.deep_view(),
            private_ip: self.private_ip.deep_view(),
            public_ip: self.public_ip.deep_view(),
            enable_ipv6: self.enable_ipv6.deep_view(),
            state: self.state.deep_view(),
            ipv6: self.ipv6.deep_view(),
            commercial_type: self.commercial_type.deep_view(),
            arch: self.arch.deep_view(),
            boot_type: self.boot_type.deep_view(),
            tags: self.tags.deep_view(),
            volumes: self.volumes.deep_view(),
        }
    }
}

impl Server {
    /// Whether a document has every member that a server needs,
    /// each of its own shape.
    pub open spec fn readable(doc: JsonValue) -> bool {
        &&& doc is Object
        &&& optional::<String>(doc.get("bootscript"@)) is Some
        &&& required::<bool>(doc.get("dynamic_ip_required"@)) is Some
        &&& required::<ServerId>(doc.get("id"@)) is Some
        &&& required::<Image>(doc.get("image"@)) is Some
        &&& required::<String>(doc.get("name"@)) is Some
        &&& required::<OrganizationId>(doc.get("organization"@)) is Some
        &&& optional::<Ip>(doc.get("private_ip"@)) is Some
        &&& optional::<Ip>(doc.get("public_ip"@)) is Some
        &&& required::<bool>(doc.get("enable_ipv6"@)) is Some
        &&& required::<ServerState>(doc.get("state"@)) is Some
        &&& optional::<Ip>(doc.get("ipv6"@)) is Some
        &&& required::<CommercialType>(doc.get("commercial_type"@)) is Some
        &&& required::<Arch>(doc.get("arch"@)) is Some
        &&& required::<BootType>(doc.get("boot_type"@)) is Some
        &&& required::<Vec<String>>(doc.get("tags"@)) is Some
        &&& required::<Table<Volume>>(doc.get("volumes"@)) is Some
    }
}

impl FromJson for Server {
    open spec fn of_json(doc: JsonValue) -> Option<ServerView> {
        if Server::readable(doc) {
            Some(
                ServerView {
                    bootscript: optional::<String>(doc.get("bootscript"@))->0,
                    dynamic_ip_required: required::<bool>(doc.get("dynamic_ip_required"@))->0,
                    id: required::<ServerId>(doc.get("id"@))->0,
                    image: required::<Image>(doc.get("image"@))->0,
                    name: required::<String>(doc.get("name"@))->0,
                    organization: required::<OrganizationId>(doc.get("organization"@))->0,
                    private_ip: optional::<Ip>(doc.get("private_ip"@))->0,
                    public_ip: optional::<Ip>(doc.get("public_ip"@))->0,
                    enable_ipv6: required::<bool>(doc.get("enable_ipv6"@))->0,
                    state: required::<ServerState>(doc.get("state"@))->0,
                    ipv6: optional::<Ip>(doc.get("ipv6"@))->0,
                    commercial_type: required::<CommercialType>(doc.get("commercial_type"@))->0,
                    arch: required::<Arch>(doc.get("arch"@))->0,
                    boot_type: required::<BootType>(doc.get("boot_type"@))->0,
                    tags: required::<Vec<String>>(doc.get("tags"@))->0,
                    volumes: required::<Table<Volume>>(doc.get("volumes"@))->0,
                },
            )
        } else {
            None
        }
    }

    fn from_json(doc: &Json) -> (read: Option<Server>) {
        if !doc.is_object() {
            return None;
        }
        let bootscript = optional_field::<String>(doc, "bootscript")?;
        let dynamic_ip_required = field::<bool>(doc, "dynamic_ip_required")?;
        let id = field::<ServerId>(doc, "id")?;
        let image = field::<Image>(doc, "image")?;
        let name = field::<String>(doc, "name")?;
        let organization = field::<OrganizationId>(doc, "organization")?;
        let private_ip = optional_field::<Ip>(doc, "private_ip")?;
        let public_ip = optional_field::<Ip>(doc, "public_ip")?;
        let enable_ipv6 = field::<bool>(doc, "enable_ipv6")?;
        let state = field::<ServerState>(doc, "state")?;
        let ipv6 = optional_field::<Ip>(doc, "ipv6")?;
        let commercial_type = field::<CommercialType>(doc, "commercial_type")?;
        let arch = field::<Arch>(doc, "arch")?;
        let boot_type = field::<BootType>(doc, "boot_type")?;
        let tags = field::<Vec<String>>(doc, "tags")?;
        let volumes = field::<Table<Volume>>(doc, "volumes")?;
        Some(
            Server {
                bootscript,
                dynamic_ip_required,
                id,
                image,
                name,
                organization,
                private_ip,
                public_ip,
                enable_ipv6,
                state,
                ipv6,
                commercial_type,
                arch,
                boot_type,
                tags,
                volumes,
            },
        )
    }
}

} // verus!
