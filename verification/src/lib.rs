//! Racoon Typper: a verified touch-typing trainer library.
//!
//! The typing engine, the practice modes, the session lifecycle, replay,
//! streaks, text-pack import and settings validation live here with their
//! contracts; file, database and clock access stay outside.

pub mod text;
pub mod domain;
pub mod input;
pub mod sound;
pub mod viewport;
pub mod finger_map;
pub mod clock;
pub mod typing;
pub mod stats;
pub mod lesson;
pub mod modes;
pub mod engine;
pub mod analytics;
pub mod replay;
pub mod streaks;
pub mod error;
pub mod custom_texts;
pub mod text_pack;
pub mod settings;
pub mod adaptive;
pub mod backup;
pub mod models;
pub mod profile;
pub mod finalization;
pub mod burst;
pub mod replay_store;
pub mod reporting;
pub mod weak_keys;
pub mod session_ledger;
pub mod finger_stats;
pub mod failure;
pub mod course;
pub mod committed_test;
pub mod csv_roundtrip;
