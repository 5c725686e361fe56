//! The cores: what a loaded core exposes, and the manager of their
//! lifecycle.

pub mod core_loop;
pub mod dummy;
pub mod manager;
pub mod model;
pub mod savestate;
pub mod status;
