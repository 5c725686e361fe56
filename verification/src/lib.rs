//! Control layer for an FPGA retro-computing platform: the command bus that
//! talks to the FPGA, the lifecycle of the loaded core, and the negotiation
//! of a video mode with the attached display.
//!
//! Every executable function carries a contract over a mathematical model of
//! its data, and the contracts are proved.

pub mod command_map;
pub mod config;
pub mod cores;
pub mod db;
pub mod fpga;
pub mod input;
pub mod net;
pub mod patch;
pub mod paths;
pub mod system;
pub mod text;
pub mod ui;
pub mod video;
