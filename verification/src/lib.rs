//! The per-connection core of a speech-to-speech relay: what each inbound
//! frame means, which backend calls it triggers and in what order, and how a
//! failure of one stage is reported without ending the session.

pub mod backend;
pub mod command;
pub mod control;
pub mod dispatch;
pub mod encoding;
pub mod frame;
pub mod json;
pub mod laws;
pub mod nim;
pub mod session;
pub mod text;
