//! Verified startup logic for a web application backend.
//!
//! The library holds the decision logic of the bootstrap sequence: settings
//! validation, the CORS policy, the session-cookie configuration, and the
//! startup sequencer that orders the steps (database pool, migrations,
//! socket bind, session store, serve) and decides what happens on each
//! outcome. The surrounding program performs the actual I/O and feeds the
//! outcomes back to the sequencer.

pub mod addr;
pub mod cors;
pub mod laws;
pub mod sequencer;
pub mod session;
pub mod settings;
