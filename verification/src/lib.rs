//! Coordination layer of a press-to-toggle dictation system: the daemon's
//! session and commit stores, the listener's toggle state machine, and the
//! merge of overlapping live transcripts.

pub mod claims;
pub mod delivery;
pub mod desktop;
pub mod engine;
pub mod facade;
pub mod filter;
pub mod focus;
pub mod focus_wait;
pub mod health;
pub mod keys;
pub mod logs;
pub mod merge;
pub mod messages;
pub mod model;
pub mod numerals;
pub mod pending;
pub mod postprocess;
pub mod preview;
pub mod recording;
pub mod session;
pub mod settings;
pub mod stopping;
pub mod strings;
pub mod toggle;
pub mod variants;
pub mod worker;
