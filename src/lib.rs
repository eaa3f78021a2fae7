//! Local identity layer of the woz command-line tool: an encrypted secret
//! store for credentials, the state machines that keep an identity token
//! fresh across process runs, and the plain data model of an app bundle.

pub mod crypto;
pub mod text;
pub mod secret_store;
pub mod token;
pub mod identity;
pub mod session;
pub mod config;
pub mod bundle;
pub mod cli;
