//! Planning poker for a group chat: the session and estimation rules, and the
//! rendering of a session into the text and the buttons that the chat shows.

pub mod constants;
pub mod helpers;
pub mod markup;
pub mod db;
pub mod store_laws;
pub mod render;
pub mod engine;
