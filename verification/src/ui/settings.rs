//! The settings of the user interface that are named by words.

use crate::text::{spec_to_lowercase, str_eq, to_lowercase};
use vstd::prelude::*;

verus! {

/// How the toolbar shows the date and the time.
#[derive(Clone, Copy, Debug, PartialEq, Eq, Structural)]
pub enum DateTimeFormat {
    /// The date and the time.
    Default,
    /// The date and the time, in short.
    Short,
    /// The time only.
    TimeOnly,
    /// Nothing.
    Hidden,
}

/// The size of the font of the menus.
#[derive(Clone, Copy, Debug, PartialEq, Eq, Structural)]
pub enum MenuStyleFontSize {
    /// Small.
    Small,
    /// Medium.
    Medium,
    /// Large.
    Large,
}

impl DateTimeFormat {
    /// The name of the format.
    pub open spec fn spec_name(self) -> Seq<char> {
        match self {
            DateTimeFormat::Default => "default"@,
            DateTimeFormat::Short => "short"@,
            DateTimeFormat::TimeOnly => "timeOnly"@,
            DateTimeFormat::Hidden => "hidden"@,
        }
    }

    /// The format that a word in lower case names.
    pub open spec fn spec_from_lower(l: Seq<char>) -> Option<DateTimeFormat> {
        if l == "default"@ {
            Some(DateTimeFormat::Default)
        } else if l == "short"@ {
            Some(DateTimeFormat::Short)
        } else if l == "timeonly"@ || l == "time"@ {
            Some(DateTimeFormat::TimeOnly)
        } else if l == "hidden"@ || l == "off"@ {
            Some(DateTimeFormat::Hidden)
        } else {
            None
        }
    }

    /// The name of the format.
    pub fn name(&self) -> (r: &'static str)
        ensures
            r@ == self.spec_name(),
    {
        match self {
            DateTimeFormat::Default => "default",
            DateTimeFormat::Short => "short",
            DateTimeFormat::TimeOnly => "timeOnly",
            DateTimeFormat::Hidden => "hidden",
        }
    }

    /// The format that a word in lower case names.
    pub fn from_lower(l: &str) -> (r: Option<DateTimeFormat>)
        ensures
            r == DateTimeFormat::spec_from_lower(l@),
    {
        if str_eq(l, "default") {
            Some(DateTimeFormat::Default)
        } else if str_eq(l, "short") {
            Some(DateTimeFormat::Short)
        } else if str_eq(l, "timeonly") || str_eq(l, "time") {
            Some(DateTimeFormat::TimeOnly)
        } else if str_eq(l, "hidden") || str_eq(l, "off") {
            Some(DateTimeFormat::Hidden)
        } else {
            None
        }
    }

    /// The format that a word names, whatever its case.
    pub fn from_str(s: &str) -> (r: Option<DateTimeFormat>)
        ensures
            r == DateTimeFormat::spec_from_lower(spec_to_lowercase(s@)),
    {
        let l = to_lowercase(s);
        DateTimeFormat::from_lower(l.as_str())
    }
}

impl MenuStyleFontSize {
    /// The name of the size.
    pub open spec fn spec_name(self) -> Seq<char> {
        match self {
            MenuStyleFontSize::Small => "small"@,
            MenuStyleFontSize::Medium => "medium"@,
            MenuStyleFontSize::Large => "large"@,
        }
    }

    /// The size that a word in lower case names.
    pub open spec fn spec_from_lower(l: Seq<char>) -> Option<MenuStyleFontSize> {
        if l == "small"@ {
            Some(MenuStyleFontSize::Small)
        } else if l == "medium"@ {
            Some(MenuStyleFontSize::Medium)
        } else if l == "large"@ {
            Some(MenuStyleFontSize::Large)
        } else {
            None
        }
    }

    /// The name of the size.
    pub fn name(&self) -> (r: &'static str)
        ensures
            r@ == self.spec_name(),
    {
        match self {
            MenuStyleFontSize::Small => "small",
            MenuStyleFontSize::Medium => "medium",
            MenuStyleFontSize::Large => "large",
        }
    }

    /// The size that a word in lower case names.
    pub fn from_lower(l: &str) -> (r: Option<MenuStyleFontSize>)
        ensures
            r == MenuStyleFontSize::spec_from_lower(l@),
    {
        if str_eq(l, "small") {
            Some(MenuStyleFontSize::Small)
        } else if str_eq(l, "medium") {
            Some(MenuStyleFontSize::Medium)
        } else if str_eq(l, "large") {
            Some(MenuStyleFontSize::Large)
        } else {
            None
        }
    }

    /// The size that a word names, whatever its case.
    pub fn from_str(s: &str) -> (r: Option<MenuStyleFontSize>)
        ensures
            r == MenuStyleFontSize::spec_from_lower(spec_to_lowercase(s@)),
    {
        let l = to_lowercase(s);
        MenuStyleFontSize::from_lower(l.as_str())
    }
}

} // verus!
