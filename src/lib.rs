//! Deterministic terrain streams and a monotonic upgrade pool for an endless
//! side-scrolling platformer.

pub mod tier;
pub mod error;
pub mod upgrade;
pub mod stream;
pub mod pool;
pub mod catalog;
pub mod terrain;
pub mod generator;
pub mod settings;
pub mod loadout;
