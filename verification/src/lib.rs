//! Decoding of Trader Workstation messages into the notifications that they carry.
pub mod account;
pub mod codes;
pub mod contracts;
pub mod decoder;
pub mod depth;
pub mod errors;
pub mod event;
pub mod fields;
pub mod history;
pub mod lookup;
pub mod messages;
pub mod news;
pub mod number;
pub mod orders;
pub mod properties;
pub mod run;
pub mod schedule;
pub mod server_versions;
pub mod session;
pub mod text;
pub mod ticks;
pub mod types;
pub mod wire;
