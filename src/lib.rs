//! Coordination of radio scanning: an exclusive claim on the controller's single
//! scan-enable state, a cleanup guard that rolls a reservation back, the ordered
//! command transactions that start and stop a scan, and the session handle that
//! represents an active scan.
pub mod config;
pub mod gate;
pub mod guard;
pub mod laws;
pub mod sequencer;
pub mod session;
