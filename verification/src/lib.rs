//! Orchestration core for real-time voice capture sessions.
//!
//! Three components cooperate: the per-session state machine, which
//! negotiates a media connection, ingests its packets and enforces the
//! liveness and lifetime timeouts; the single-flight speech-recognition
//! job, which runs one pipeline per audio artifact and hands its single
//! outcome to every waiter; and the garbage collector, which reclaims
//! sessions, jobs and artifacts after a grace period. They share the
//! registries of what exists per owner.
//!
//! The components decide and never wait. Each takes events (a packet, a
//! clock reading, an answer of the recognition service) and returns the
//! actions that its driver is to perform on the media transport, the output
//! file and the network. Every component comes with a mathematical model,
//! and its functions are proved to do what the model says.

pub mod api;
pub mod asr;
pub mod auth;
pub mod collector;
pub mod ident;
pub mod media;
pub mod registry;
pub mod session;
pub mod text;
