//! A stateful multi-step polling engine for small rate-limited HTTP devices.
//!
//! The library holds the verified core shared by several device adaptors: an
//! authentication session state machine, per-profile step sequencers (static
//! chains and a dynamically sized tail), response aggregation under
//! per-category merge policies, a single-slot snapshot publisher, and the
//! poll-cycle drivers that tie them together.  Transport, JSON decoding and
//! metric export live outside the library and exchange plain values with it.

pub mod bbox;
pub mod deye;
pub mod freebox;
pub mod protocol;
pub mod publisher;
pub mod sequencer;
pub mod session;
pub mod table;
pub mod text;
