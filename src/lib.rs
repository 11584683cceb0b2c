//! A login gate for a Minecraft server: a login goes through only after the
//! account's owner approves it from a private chat message.
//!
//! The heart of the crate is [`Authorizations`], a registry that pairs one
//! waiting login check with the one decision that settles it.
pub mod authorizations;
pub mod bot;
pub mod history;
pub mod models;
pub mod server;
pub mod text;

pub use authorizations::{Authorization, Authorizations};
pub use models::MinecraftType;
