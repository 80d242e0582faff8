//! Playback orchestration for a local music player.
//!
//! The heart of the crate is [`player::AudioPlayer`]: the shared record of
//! what is playing, what is queued, and what state the transport is in,
//! together with the transport commands that mutate it and the end-of-track
//! reconciler that advances the queue when the audio engine reports that the
//! current media finished. Every command is specified and verified against a
//! mathematical model of the player ([`player::PlayerModel`]); the hosting
//! shell is expected to wrap the player in its own lock, drive the audio
//! engine around each command, and publish the returned snapshots.

pub mod app_state;
pub mod models;
pub mod paths;
pub mod player;
