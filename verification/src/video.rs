//! Video-mode negotiation: display identification data, clock synthesis and
//! timing descriptors.

pub mod edid;
pub mod edid_info;
pub mod hexdump;
pub mod mode;
pub mod pll;
pub mod select;
