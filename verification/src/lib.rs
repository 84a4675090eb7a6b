//! Core runtime logic of a voice-assistant appliance.
//!
//! The library holds the device's decision logic as pure, verified state
//! machines: the session orchestrator that turns device, microphone and
//! server events into transport, playback and display commands; the
//! playback pipeline that serializes speaker output; the acoustic
//! front-end adapter that turns engine fetch results into session events;
//! and the download-rate estimator behind the buffered-vs-streamed
//! playback decision. Device I/O (sockets, speakers, microphones,
//! displays) lives outside the library and hands it plain values.
pub mod afe;
pub mod hal;
pub mod metrics;
pub mod player;
pub mod protocol;
pub mod session;
