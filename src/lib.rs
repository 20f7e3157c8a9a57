//! Health dashboard engine: status rows gathered from a fixed registry of
//! probes, remediation actions derived from them, and the cursor and refresh
//! state machine that the terminal front end drives.
pub mod status;
pub mod text;
pub mod probe;
pub mod collect;
pub mod registry;
pub mod actions;
pub mod state;
pub mod refresh;
