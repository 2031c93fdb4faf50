//! Verified decision logic of three device plugins.

pub mod json;
pub mod metadata;
pub mod multiroom;
pub mod plugin_error;
pub mod shares;
pub mod text;
