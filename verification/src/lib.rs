//! Verified core of `lyra`, a terminal dashboard that watches a Logitech
//! Media Server: the typed response accessor, the snapshot synchronization
//! engine, list navigation, and the pure text-column layout engine.

pub mod app;
pub mod config;
pub mod events;
pub mod lms;
pub mod num;
pub mod text;
pub mod time;
pub mod ui;
