//! The decision-making core of a media-key daemon.
//!
//! Raw key events are debounced into [`keys::Action`]s; each action is then
//! carried out as a short exchange of commands and replies with the audio
//! mixer or with the running media players.

pub mod dispatch;
pub mod exchange;
pub mod keys;
pub mod mixer;
pub mod select;
