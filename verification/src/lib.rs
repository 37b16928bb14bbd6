//! An encrypted credential store: a map from account names to named fields,
//! sealed under a master password into a single printable container.
//!
//! - [`store`] holds the accounts in memory and changes them, over the string
//!   map of [`strmap`];
//! - [`codec`] seals the accounts into a container and opens it again, with
//!   the key derivation and the cipher of [`crypto`] and the encodings of
//!   [`encoding`];
//! - [`generator`] generates values, drawing from [`random`];
//! - [`command`] carries out the commands of a session ([`session`]) and says
//!   what to ask the user ([`dialogue`]), from the arguments and the
//!   configuration of [`config`];
//! - [`failure`] lists what can go wrong.
//!
//! The modules [`crypto`], [`encoding`], [`random`] and [`stdlib`] state what
//! is taken on trust from code outside this crate; everything else is proved
//! against those statements.

pub mod codec;
pub mod command;
pub mod config;
pub mod crypto;
pub mod dialogue;
pub mod encoding;
pub mod failure;
pub mod generator;
pub mod random;
pub mod session;
pub mod stdlib;
pub mod store;
pub mod strmap;
pub mod text;
