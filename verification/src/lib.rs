//! Locale synchronisation and launch orchestration for a desktop game client.
//!
//! The crate decides; its caller acts. It holds the rules by which a game's two
//! locale settings are read from and written to its configuration file
//! ([`config`], [`store`]), the preferred locale they are brought in line with
//! ([`locale`]), the timed sequence of launches ([`sequence`]), the checks on
//! paths ([`validate`]), the settings kept between sessions ([`settings`]), and
//! the state that ties them together ([`orchestrator`]). Files, processes,
//! windows and clocks stay with the caller, which reports what it observed and
//! carries out what it is told.
//!
//! Every function is verified against a contract over sequences of characters
//! ([`text`]). Three contracts are taken on trust: that of `String::push`, and
//! those of the two calls into the standard library's path handling in
//! [`validate`].

pub mod config;
pub mod locale;
pub mod orchestrator;
pub mod sequence;
pub mod settings;
pub mod store;
pub mod text;
pub mod validate;
