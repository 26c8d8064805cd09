//! The decision logic of a push-to-talk dictation pipeline.
//!
//! A key event is turned into a command for the capture session
//! ([`hotkey`]); the session is started and stopped, and what it captured
//! is filed by session identifier ([`recording`], [`session`]); a stored
//! session is routed to the engine that its model names, which is loaded
//! once and cached ([`models`], [`transcription`]); what the engine returns
//! is made into a transcript ([`stt`]), which text rules and rewriting
//! functions may then work on ([`rules`], [`ai_functions`], [`llm`]).
//!
//! Devices, threads, files, the network and floating-point signal
//! processing stay with the caller. The library takes what they produced
//! as plain values and says what is to happen next.

pub mod ai_functions;
pub mod error;
pub mod hotkey;
pub mod llm;
pub mod models;
pub mod recording;
pub mod rules;
pub mod session;
pub mod stt;
pub mod text;
pub mod transcription;
