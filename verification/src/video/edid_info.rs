//! What a display says of itself besides its preferred timing, in the form
//! in which it is shown.

use crate::text::{push_char, push_decimal, spec_decimal};
use vstd::prelude::*;

verus! {

/// The aspect ratio of a standard timing.
#[derive(Clone, Copy, Debug, PartialEq, Eq, Structural)]
pub enum StandardAspectRatio {
    /// 16 to 10.
    R16x10,
    /// 4 to 3.
    R4x3,
    /// 5 to 4.
    R5x4,
    /// 16 to 9.
    R16x9,
}

impl StandardAspectRatio {
    /// The ratio in words.
    pub open spec fn spec_name(self) -> Seq<char> {
        match self {
            StandardAspectRatio::R16x10 => "16x10"@,
            StandardAspectRatio::R4x3 => "4x3"@,
            StandardAspectRatio::R5x4 => "5x4"@,
            StandardAspectRatio::R16x9 => "16x9"@,
        }
    }

    /// The number of lines that go with a number of pixels in a line,
    /// rounded down.
    pub open spec fn spec_lines(self, horizontal: int) -> int {
        match self {
            StandardAspectRatio::R16x10 => horizontal * 10 / 16,
            StandardAspectRatio::R4x3 => horizontal * 3 / 4,
            StandardAspectRatio::R5x4 => horizontal * 4 / 5,
            StandardAspectRatio::R16x9 => horizontal * 9 / 16,
        }
    }

    /// The ratio in words.
    pub fn name(&self) -> (r: &'static str)
        ensures
            r@ == self.spec_name(),
    {
        match self {
            StandardAspectRatio::R16x10 => "16x10",
            StandardAspectRatio::R4x3 => "4x3",
            StandardAspectRatio::R5x4 => "5x4",
            StandardAspectRatio::R16x9 => "16x9",
        }
    }
}

/// A standard timing of a display.
#[derive(Debug)]
pub struct StandardTiming {
    /// Lines.
    pub vertical_addr_pixel_ct: u16,
    /// Pixels in a line.
    pub horizontal_addr_pixel_ct: u16,
    /// The aspect ratio, in words.
    pub aspect_ratio: String,
    /// The refresh rate, in hertz.
    pub field_refresh_rate: u8,
}

impl StandardTiming {
    /// The standard timing of a width, an aspect ratio and a refresh rate:
    /// the number of lines follows from the width and the aspect ratio.
    pub fn from_parts(horizontal: u16, aspect_ratio: StandardAspectRatio, refresh: u8) -> (r:
        StandardTiming)
        ensures
            r.horizontal_addr_pixel_ct == horizontal,
            r.vertical_addr_pixel_ct as int == aspect_ratio.spec_lines(horizontal as int),
            r.aspect_ratio@ == aspect_ratio.spec_name(),
            r.field_refresh_rate == refresh,
    {
        let h: u32 = horizontal as u32;
        let lines: u32 = match aspect_ratio {
            StandardAspectRatio::R16x10 => h * 10 / 16,
            StandardAspectRatio::R4x3 => h * 3 / 4,
            StandardAspectRatio::R5x4 => h * 4 / 5,
            StandardAspectRatio::R16x9 => h * 9 / 16,
        };
        StandardTiming {
            vertical_addr_pixel_ct: lines as u16,
            horizontal_addr_pixel_ct: horizontal,
            aspect_ratio: String::from_str(aspect_ratio.name()),
            field_refresh_rate: refresh,
        }
    }
}

/// Those of the first `n` standard timings that are named, in their order.
pub open spec fn spec_named(named: Seq<Option<(u16, StandardAspectRatio, u8)>>, n: int) -> Seq<
    (u16, StandardAspectRatio, u8),
>
    decreases n,
{
    if n <= 0 || n > named.len() {
        Seq::empty()
    } else if named[n - 1].is_some() {
        spec_named(named, n - 1).push(named[n - 1].unwrap())
    } else {
        spec_named(named, n - 1)
    }
}

/// The standard timings that a display names, of the eight that it may
/// name, in their order.
pub fn standard_timings(named: [Option<(u16, StandardAspectRatio, u8)>; 8]) -> (r: Vec<
    StandardTiming,
>)
    ensures
        r@.len() == spec_named(named@, 8).len(),
        forall|i: int|
            0 <= i < r@.len() ==> {
                let t = #[trigger] r@[i];
                let (h, a, f) = spec_named(named@, 8)[i];
                &&& t.horizontal_addr_pixel_ct == h
                &&& t.vertical_addr_pixel_ct as int == a.spec_lines(h as int)
                &&& t.aspect_ratio@ == a.spec_name()
                &&& t.field_refresh_rate == f
            },
{
    let mut r: Vec<StandardTiming> = Vec::new();
    let mut i: usize = 0;
    while i < 8
        invariant
            i <= 8,
            r@.len() == spec_named(named@, i as int).len(),
            forall|k: int|
                0 <= k < r@.len() ==> {
                    let t = #[trigger] r@[k];
                    let (h, a, f) = spec_named(named@, i as int)[k];
                    &&& t.horizontal_addr_pixel_ct == h
                    &&& t.vertical_addr_pixel_ct as int == a.spec_lines(h as int)
                    &&& t.aspect_ratio@ == a.spec_name()
                    &&& t.field_refresh_rate == f
                },
        decreases 8 - i,
    {
        if let Some((h, a, f)) = named[i] {
            r.push(StandardTiming::from_parts(h, a, f));
        }
        i = i + 1;
    }
    r
}

/// A number in decimal with zeros in front up to a width of four.
pub open spec fn spec_decimal4(n: nat) -> Seq<char> {
    (if n < 1000 {
        seq!['0']
    } else {
        Seq::<char>::empty()
    }) + (if n < 100 {
        seq!['0']
    } else {
        Seq::<char>::empty()
    }) + (if n < 10 {
        seq!['0']
    } else {
        Seq::<char>::empty()
    }) + spec_decimal(n)
}

/// A number in decimal with a zero in front up to a width of two.
pub open spec fn spec_decimal2(n: nat) -> Seq<char> {
    (if n < 10 {
        seq!['0']
    } else {
        Seq::<char>::empty()
    }) + spec_decimal(n)
}

fn push_decimal4(out: &mut String, n: u64)
    ensures
        final(out)@ == old(out)@ + spec_decimal4(n as nat),
{
    if n < 1000 {
        push_char(out, '0');
    }
    if n < 100 {
        push_char(out, '0');
    }
    if n < 10 {
        push_char(out, '0');
    }
    push_decimal(out, n);
    assert(out@ =~= old(out)@ + spec_decimal4(n as nat));
}

/// The date of a display.
#[derive(Clone, Copy, Debug, PartialEq, Eq, Structural)]
pub enum EdidDate {
    /// The week and the year in which the display was made.
    Manufacture {
        /// The week, where it is known.
        week: Option<u8>,
        /// The year.
        year: u16,
    },
    /// The year of the model.
    ModelYear(u16),
}

impl EdidDate {
    /// The date in words: the year in four digits and, for the date on which
    /// the display was made, a hyphen and the week in two digits, an unknown
    /// week being week 0.
    pub open spec fn spec_to_string(self) -> Seq<char> {
        match self {
            EdidDate::Manufacture { week, year } => spec_decimal4(year as nat) + seq!['-']
                + spec_decimal2(
                (match week {
                    Some(w) => w,
                    None => 0u8,
                }) as nat,
            ),
            EdidDate::ModelYear(year) => spec_decimal4(year as nat),
        }
    }

    /// The date in words.
    pub fn to_string(&self) -> (r: String)
        ensures
            r@ == self.spec_to_string(),
    {
        let mut r = String::new();
        match self {
            EdidDate::Manufacture { week, year } => {
                push_decimal4(&mut r, *year as u64);
                push_char(&mut r, '-');
                let w: u8 = match week {
                    Some(w) => *w,
                    None => 0,
                };
                let ghost head = r@;
                if w < 10 {
                    push_char(&mut r, '0');
                }
                push_decimal(&mut r, w as u64);
                assert(r@ =~= head + spec_decimal2(w as nat));
                assert(r@ =~= self.spec_to_string());
            },
            EdidDate::ModelYear(year) => {
                push_decimal4(&mut r, *year as u64);
                assert(r@ =~= self.spec_to_string());
            },
        }
        r
    }
}

/// The version of the identification data in words: the version, a dot, and
/// the revision.
pub fn edid_version(version: u8, revision: u8) -> (r: String)
    ensures
        r@ == spec_decimal(version as nat) + seq!['.'] + spec_decimal(revision as nat),
{
    let mut r = String::new();
    push_decimal(&mut r, version as u64);
    push_char(&mut r, '.');
    push_decimal(&mut r, revision as u64);
    assert(r@ =~= spec_decimal(version as nat) + seq!['.'] + spec_decimal(revision as nat));
    r
}

} // verus!
