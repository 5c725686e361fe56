//! Size of the framebuffer.

use crate::text::str_eq;
use vstd::prelude::*;

verus! {

/// Size of the framebuffer, relative to the resolution of the display.
#[derive(Clone, Copy, Debug, PartialEq, Eq, Structural)]
pub enum FramebufferSizeConfig {
    /// Chosen by the firmware.
    Automatic,
    /// The full resolution.
    FullSize,
    /// Half the resolution.
    HalfSize,
    /// A quarter of the resolution.
    QuarterSize,
}

impl Default for FramebufferSizeConfig {
    fn default() -> (r: FramebufferSizeConfig)
        ensures
            r == FramebufferSizeConfig::Automatic,
    {
        FramebufferSizeConfig::Automatic
    }
}

impl FramebufferSizeConfig {
    /// The size after merging `other` into `this`: `other`, unless it is the
    /// default.
    pub open spec fn spec_merge(
        this: FramebufferSizeConfig,
        other: FramebufferSizeConfig,
    ) -> FramebufferSizeConfig {
        if other != FramebufferSizeConfig::Automatic {
            other
        } else {
            this
        }
    }

    /// The number that stands for the size in a configuration file.
    pub open spec fn spec_code(self) -> u8 {
        match self {
            FramebufferSizeConfig::Automatic => 0,
            FramebufferSizeConfig::FullSize => 1,
            FramebufferSizeConfig::HalfSize => 2,
            FramebufferSizeConfig::QuarterSize => 4,
        }
    }

    /// The size that a word of a configuration file stands for: its name or
    /// its number.
    pub open spec fn spec_from_str(s: Seq<char>) -> Option<FramebufferSizeConfig> {
        if s == "automatic"@ || s == "0"@ {
            Some(FramebufferSizeConfig::Automatic)
        } else if s == "full_size"@ || s == "1"@ {
            Some(FramebufferSizeConfig::FullSize)
        } else if s == "half_size"@ || s == "2"@ {
            Some(FramebufferSizeConfig::HalfSize)
        } else if s == "quarter_size"@ || s == "4"@ {
            Some(FramebufferSizeConfig::QuarterSize)
        } else {
            None
        }
    }

    /// Merges `other` into this size: a size other than the default replaces
    /// it, the default leaves it as it is.
    pub fn merge(&mut self, other: FramebufferSizeConfig)
        ensures
            *final(self) == FramebufferSizeConfig::spec_merge(*old(self), other),
    {
        if other != FramebufferSizeConfig::Automatic {
            *self = other;
        }
    }

    /// The number that stands for the size in a configuration file.
    pub fn code(&self) -> (r: u8)
        ensures
            r == self.spec_code(),
    {
        match self {
            FramebufferSizeConfig::Automatic => 0,
            FramebufferSizeConfig::FullSize => 1,
            FramebufferSizeConfig::HalfSize => 2,
            FramebufferSizeConfig::QuarterSize => 4,
        }
    }

    /// The size of a number; `None` for a number that stands for no size.
    pub fn from_code(code: u8) -> (r: Option<FramebufferSizeConfig>)
        ensures
            match r {
                Some(size) => size.spec_code() == code,
                None => code != 0 && code != 1 && code != 2 && code != 4,
            },
    {
        if code == 0 {
            Some(FramebufferSizeConfig::Automatic)
        } else if code == 1 {
            Some(FramebufferSizeConfig::FullSize)
        } else if code == 2 {
            Some(FramebufferSizeConfig::HalfSize)
        } else if code == 4 {
            Some(FramebufferSizeConfig::QuarterSize)
        } else {
            None
        }
    }

    /// The size that a word of a configuration file stands for.
    pub fn from_str(s: &str) -> (r: Option<FramebufferSizeConfig>)
        ensures
            r == FramebufferSizeConfig::spec_from_str(s@),
    {
        if str_eq(s, "automatic") || str_eq(s, "0") {
            Some(FramebufferSizeConfig::Automatic)
        } else if str_eq(s, "full_size") || str_eq(s, "1") {
            Some(FramebufferSizeConfig::FullSize)
        } else if str_eq(s, "half_size") || str_eq(s, "2") {
            Some(FramebufferSizeConfig::HalfSize)
        } else if str_eq(s, "quarter_size") || str_eq(s, "4") {
            Some(FramebufferSizeConfig::QuarterSize)
        } else {
            None
        }
    }
}

} // verus!
