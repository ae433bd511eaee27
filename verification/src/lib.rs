//! The engine of a terminal chat client.
//!
//! The engine keeps what the client knows of a session: the names of the
//! characters it has met ([`identity`]), the channels it can talk in
//! ([`channel`]), the lookups of names that are under way, and how far the
//! login has come. [`chat::ChatState`] takes in each event from the network
//! and each command of the user, and answers with the effects that its
//! surroundings are to carry out: requests to send, updates to show, and
//! waiters to wake. It never waits itself.
//!
//! [`model`] states every operation as a function on a mathematical value,
//! and [`theorems`] proves what holds of it in every state. [`ui`] is the
//! state of the screen and its answer to the keyboard; [`command`] and
//! [`config`] read command lines and the configuration text.

pub mod channel;
pub mod chat;
pub mod command;
pub mod config;
pub mod event;
pub mod identity;
pub mod input;
pub mod model;
pub mod resolved;
pub mod spans;
pub mod text;
pub mod theorems;
pub mod ui;
