//! Online metadata: an anonymous-first cascade of providers, its caches and its
//! verbs.

pub mod album_notes;
pub mod annotation;
pub mod bio;
pub mod browse;
pub mod cache;
pub mod cascade;
pub mod config;
pub mod credits;
pub mod fetch;
pub mod locale;
pub mod lyrics;
pub mod mpd;
pub mod normalise;
pub mod order;
pub mod plugin;
pub mod reconcile;
pub mod request;
pub mod sources;
pub mod work_notes;
