//! A client for the Scaleway API: the account service (tokens, users,
//! organizations) and the making of servers.
//!
//! The library decides what is sent and what a reply means; it sends nothing
//! itself. An operation of [`Client`] gives the [`Request`] to send, and the
//! function beside it, whose name ends in `_result`, takes what came back and
//! gives the operation's result.

pub mod account;
pub mod client;
pub mod compute;
pub mod date;
pub mod error;
pub mod ids;
pub mod ip;
pub mod json;
pub mod shape;
pub mod text;
pub mod utils;

pub use account::{Organization, Role, Roles, SshKey, Token, TokenCategory, User};
pub use client::Client;
pub use compute::{
    Arch, BootType, CommercialType, Image, Server, ServerOptions, ServerState, ShortServer, Volume,
    VolumeType,
};
pub use date::Date;
pub use error::{ApiError, ApiErrorType, Error};
pub use ids::{
    AccessKey, ImageId, OrganizationId, RoleId, ServerId, SshKeyId, TokenId, UserId, VolumeId,
};
pub use ip::Ip;
pub use json::Json;
pub use utils::{Method, Region, Reply, Request};
