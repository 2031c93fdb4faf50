//! Network shares: records, mounting, discovery and operator verbs.

pub mod discovery;
pub mod live_state;
pub mod mount_args;
pub mod mounting;
pub mod parsers;
pub mod plugin;
pub mod records;
pub mod runtime;
pub mod state;
pub mod verbs;
