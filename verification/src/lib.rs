//! A small playback coordinator: an ordered playlist of audio tracks, a
//! transport state machine (pause, resume, volume) and progress reporting,
//! meant to sit between caller threads, a playback-driving loop and a
//! command-consuming loop.
//!
//! This crate is the verified core: the shared playback state and every
//! decision that the two loops and the facade make on it. The unverified
//! shell — the threads, the lock, the command channel and the audio engine
//! itself — lives outside, holds a `Playlist` behind its lock, and calls in:
//! the driving loop asks [`Playlist::driver_step`] what to do and reports
//! the outcome back, and the command loop hands each received message to
//! [`Playlist::apply_command`] together with what the engine reports of the
//! live session, then performs the returned action on the session.

pub mod command;
pub mod driver;
pub mod laws;
pub mod message;
pub mod playlist;
pub mod track;

pub use command::CommandAction;
pub use command::EngineState;
pub use driver::DriverAction;
pub use message::Message;
pub use message::MessageValue;
pub use playlist::create_playlist;
pub use playlist::Playlist;
pub use playlist::PlaylistView;
pub use playlist::DEFAULT_VOLUME_BITS;
pub use track::Track;
