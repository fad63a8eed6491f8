//! The persistence core of a mod manager.
//!
//! A mod manager keeps one configuration and any number of profiles, each
//! in a JSON file of its own. This crate holds what is decided about those
//! documents: their schema and its JSON form, the migration of profiles
//! that older versions wrote, the order in which a loaded profile lists its
//! mods, and what a read or a write comes to. It opens no file: the caller
//! hands in the bytes that were read and takes the bytes to write.
//!
//! - [`schema`]: the documents and their content.
//! - [`json`]: JSON documents as trees.
//! - [`wire`]: JSON text, read and written by `serde_json`.
//! - [`codec`] and [`forms`]: the JSON form of each document.
//! - [`laws`]: what holds of those forms.
//! - [`migrate`]: from older profiles to current ones.
//! - [`order`]: the order of a profile's mods.
//! - [`store`]: reading and writing the documents.
//! - [`paths`]: where the configuration is kept.

pub mod codec;
pub mod forms;
pub mod json;
pub mod laws;
pub mod migrate;
pub mod order;
pub mod paths;
pub mod schema;
pub mod store;
pub mod wire;

pub use schema::{Config, Mod, ModIdentifier, ModLoader, Profile, ProfileItem};
pub use store::{
    provision_config, read_config, read_profile, write_config, write_profile, Opened, ReadError,
};
pub use wire::PrintError;
