//! The command bus to the FPGA, and the commands that travel over it.

pub mod bus;
pub mod file_io;
pub mod osd_io;
pub mod user_io;
