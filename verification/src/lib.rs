//! The core of a small digital audio workstation: the project model, the
//! fixed-point mixer, the queue of user-interface events and the state
//! machine that owns the output stream.
//!
//! Every quantity that an interface shows as a fraction is held here as an
//! integer in a fixed unit: volume in thousandths of a percent, pan position
//! in thousandths of the way from the centre to an edge, tempo in
//! thousandths of a beat per minute, time in nanoseconds on a monotonic
//! clock.

pub mod channel;
pub mod control;
pub mod engine;
pub mod format;
pub mod handler;
pub mod intents;
pub mod levels;
pub mod mixer;
pub mod noise;
pub mod play_state;
pub mod project;
pub mod sampler;
pub mod settings;
pub mod stream_config;
pub mod system_state;
pub mod ui_event;
pub mod vsts;
pub mod windows;
