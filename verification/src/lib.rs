//! The logic of the JotPad desktop shell: the user's settings and the
//! file that keeps them, the relay of the front end's log messages, and
//! the schema of the notes database.
//!
//! - [`store`] says what reading and writing the settings file come to.
//! - [`settings`] holds the settings and the JSON document that stands
//!   for them.
//! - [`merge`] lays a stored document over the defaults.
//! - [`json`] and [`codec`] hold JSON documents and carry them to and
//!   from text.
//! - [`relay`] finds the severity of a relayed log message.
//! - [`migrations`] lists the steps of the database schema.
//!
//! Nothing here touches a file, a logger or a database: the caller does,
//! and hands over plain values.

pub mod codec;
pub mod json;
pub mod merge;
pub mod migrations;
pub mod relay;
pub mod settings;
pub mod store;

pub use relay::log_message;
pub use settings::{BackgroundSettings, Settings};
pub use store::{read_settings, write_settings};
