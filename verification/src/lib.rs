//! A store of credential records.
//!
//! A record holds a site, a user name and a password. The store keeps its
//! records in the order in which they were added and knows each only by its
//! position. It is written to a file as one JSON document and read back from
//! it; reading never fails, and a text that is no store gives the empty
//! store. This library does no input or output itself: it turns a store into
//! the text of its file and the text of a file into a store.
//!
//! - [`entry`]: one record and its view.
//! - [`database`]: the store, with appending and deletion by position.
//! - [`json`]: what is taken on trust of `serde_json`.
//! - [`codec`]: the JSON document of a store, read and written.
//! - [`search`]: the filter of the record list.
//! - [`shell`]: the state behind the window and its decisions.

pub mod codec;
pub mod database;
pub mod entry;
pub mod json;
pub mod search;
pub mod shell;

pub use codec::SaveError;
pub use database::PasswordDatabase;
pub use entry::PasswordEntry;
pub use shell::PasswordManagerApp;
