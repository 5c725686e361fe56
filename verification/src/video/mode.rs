//! Timing descriptors: the fixed video modes and the descriptor that is sent
//! to the core.
//!
//! Pixel clocks are exact integers in hertz, frame rates in millihertz.

use super::pll::{
    find_pll, get_pll_div_, k_register, spec_find_pll, spec_k_register, spec_pll_div, Pll,
};
use crate::text::str_eq;
use vstd::prelude::*;

verus! {

/// The fixed video modes.
#[derive(Clone, Copy, Debug, PartialEq, Eq, Structural)]
pub enum DefaultVideoMode {
    /// 1280x720 at 60 Hz.
    V1280x720r60,
    /// 1024x768 at 60 Hz.
    V1024x768r60,
    /// 720x480 at 60 Hz.
    V720x480r60,
    /// 720x576 at 50 Hz.
    V720x576r50,
    /// 1280x1024 at 60 Hz.
    V1280x1024r60,
    /// 800x600 at 60 Hz.
    V800x600r60,
    /// 640x480 at 60 Hz.
    V640x480r60,
    /// 1280x720 at 50 Hz.
    V1280x720r50,
    /// 1920x1080 at 60 Hz.
    V1920x1080r60,
    /// 1920x1080 at 50 Hz.
    V1920x1080r50,
    /// 1366x768 at 60 Hz.
    V1366x768r60,
    /// 1024x600 at 60 Hz.
    V1024x600r60,
    /// 1920x1440 at 60 Hz.
    V1920x1440r60,
    /// 2048x1536 at 60 Hz.
    V2048x1536r60,
    /// 2560x1440 at 60 Hz, pixel repetition.
    V2560x1440r60,
    /// NTSC at 15 kHz.
    Ntsc15K,
    /// NTSC at 31 kHz.
    Ntsc31K,
    /// PAL at 15 kHz.
    Pal15k,
    /// PAL at 31 kHz.
    Pal31k,
}

/// Number of the fixed video modes.
pub const DEFAULT_VIDEO_MODES: u8 = 19;

fn row(a: u32, b: u32, c: u32, d: u32, e: u32, f: u32, g: u32, h: u32) -> (r: [u32; 8])
    ensures
        r@ == seq![a, b, c, d, e, f, g, h],
{
    let r: [u32; 8] = [a, b, c, d, e, f, g, h];
    assert(r@ =~= seq![a, b, c, d, e, f, g, h]);
    r
}

impl DefaultVideoMode {
    /// The number of the mode.
    pub open spec fn spec_index(self) -> u8 {
        match self {
            DefaultVideoMode::V1280x720r60 => 0,
            DefaultVideoMode::V1024x768r60 => 1,
            DefaultVideoMode::V720x480r60 => 2,
            DefaultVideoMode::V720x576r50 => 3,
            DefaultVideoMode::V1280x1024r60 => 4,
            DefaultVideoMode::V800x600r60 => 5,
            DefaultVideoMode::V640x480r60 => 6,
            DefaultVideoMode::V1280x720r50 => 7,
            DefaultVideoMode::V1920x1080r60 => 8,
            DefaultVideoMode::V1920x1080r50 => 9,
            DefaultVideoMode::V1366x768r60 => 10,
            DefaultVideoMode::V1024x600r60 => 11,
            DefaultVideoMode::V1920x1440r60 => 12,
            DefaultVideoMode::V2048x1536r60 => 13,
            DefaultVideoMode::V2560x1440r60 => 14,
            DefaultVideoMode::Ntsc15K => 15,
            DefaultVideoMode::Ntsc31K => 16,
            DefaultVideoMode::Pal15k => 17,
            DefaultVideoMode::Pal31k => 18,
        }
    }

    /// The mode of a number, where there is one.
    pub open spec fn spec_from_repr(index: u8) -> Option<DefaultVideoMode> {
        if index == 0 {
            Some(DefaultVideoMode::V1280x720r60)
        } else if index == 1 {
            Some(DefaultVideoMode::V1024x768r60)
        } else if index == 2 {
            Some(DefaultVideoMode::V720x480r60)
        } else if index == 3 {
            Some(DefaultVideoMode::V720x576r50)
        } else if index == 4 {
            Some(DefaultVideoMode::V1280x1024r60)
        } else if index == 5 {
            Some(DefaultVideoMode::V800x600r60)
        } else if index == 6 {
            Some(DefaultVideoMode::V640x480r60)
        } else if index == 7 {
            Some(DefaultVideoMode::V1280x720r50)
        } else if index == 8 {
            Some(DefaultVideoMode::V1920x1080r60)
        } else if index == 9 {
            Some(DefaultVideoMode::V1920x1080r50)
        } else if index == 10 {
            Some(DefaultVideoMode::V1366x768r60)
        } else if index == 11 {
            Some(DefaultVideoMode::V1024x600r60)
        } else if index == 12 {
            Some(DefaultVideoMode::V1920x1440r60)
        } else if index == 13 {
            Some(DefaultVideoMode::V2048x1536r60)
        } else if index == 14 {
            Some(DefaultVideoMode::V2560x1440r60)
        } else if index == 15 {
            Some(DefaultVideoMode::Ntsc15K)
        } else if index == 16 {
            Some(DefaultVideoMode::Ntsc31K)
        } else if index == 17 {
            Some(DefaultVideoMode::Pal15k)
        } else if index == 18 {
            Some(DefaultVideoMode::Pal31k)
        } else {
            None
        }
    }

    /// The name of the mode.
    pub open spec fn spec_name(self) -> Seq<char> {
        match self {
            DefaultVideoMode::V1280x720r60 => "V1280x720r60"@,
            DefaultVideoMode::V1024x768r60 => "V1024x768r60"@,
            DefaultVideoMode::V720x480r60 => "V720x480r60"@,
            DefaultVideoMode::V720x576r50 => "V720x576r50"@,
            DefaultVideoMode::V1280x1024r60 => "V1280x1024r60"@,
            DefaultVideoMode::V800x600r60 => "V800x600r60"@,
            DefaultVideoMode::V640x480r60 => "V640x480r60"@,
            DefaultVideoMode::V1280x720r50 => "V1280x720r50"@,
            DefaultVideoMode::V1920x1080r60 => "V1920x1080r60"@,
            DefaultVideoMode::V1920x1080r50 => "V1920x1080r50"@,
            DefaultVideoMode::V1366x768r60 => "V1366x768r60"@,
            DefaultVideoMode::V1024x600r60 => "V1024x600r60"@,
            DefaultVideoMode::V1920x1440r60 => "V1920x1440r60"@,
            DefaultVideoMode::V2048x1536r60 => "V2048x1536r60"@,
            DefaultVideoMode::V2560x1440r60 => "V2560x1440r60"@,
            DefaultVideoMode::Ntsc15K => "Ntsc15K"@,
            DefaultVideoMode::Ntsc31K => "Ntsc31K"@,
            DefaultVideoMode::Pal15k => "Pal15k"@,
            DefaultVideoMode::Pal31k => "Pal31k"@,
        }
    }

    /// The mode of a name, where there is one.
    pub open spec fn spec_from_str(s: Seq<char>) -> Option<DefaultVideoMode> {
        if s == "V1280x720r60"@ {
            Some(DefaultVideoMode::V1280x720r60)
        } else if s == "V1024x768r60"@ {
            Some(DefaultVideoMode::V1024x768r60)
        } else if s == "V720x480r60"@ {
            Some(DefaultVideoMode::V720x480r60)
        } else if s == "V720x576r50"@ {
            Some(DefaultVideoMode::V720x576r50)
        } else if s == "V1280x1024r60"@ {
            Some(DefaultVideoMode::V1280x1024r60)
        } else if s == "V800x600r60"@ {
            Some(DefaultVideoMode::V800x600r60)
        } else if s == "V640x480r60"@ {
            Some(DefaultVideoMode::V640x480r60)
        } else if s == "V1280x720r50"@ {
            Some(DefaultVideoMode::V1280x720r50)
        } else if s == "V1920x1080r60"@ {
            Some(DefaultVideoMode::V1920x1080r60)
        } else if s == "V1920x1080r50"@ {
            Some(DefaultVideoMode::V1920x1080r50)
        } else if s == "V1366x768r60"@ {
            Some(DefaultVideoMode::V1366x768r60)
        } else if s == "V1024x600r60"@ {
            Some(DefaultVideoMode::V1024x600r60)
        } else if s == "V1920x1440r60"@ {
            Some(DefaultVideoMode::V1920x1440r60)
        } else if s == "V2048x1536r60"@ {
            Some(DefaultVideoMode::V2048x1536r60)
        } else if s == "V2560x1440r60"@ {
            Some(DefaultVideoMode::V2560x1440r60)
        } else if s == "Ntsc15K"@ {
            Some(DefaultVideoMode::Ntsc15K)
        } else if s == "Ntsc31K"@ {
            Some(DefaultVideoMode::Ntsc31K)
        } else if s == "Pal15k"@ {
            Some(DefaultVideoMode::Pal15k)
        } else if s == "Pal31k"@ {
            Some(DefaultVideoMode::Pal31k)
        } else {
            None
        }
    }

    /// The timing of the mode: active, front porch, sync and back porch,
    /// first of the lines and then of the frame.
    pub open spec fn spec_v_param(self) -> Seq<u32> {
        match self {
            DefaultVideoMode::V1280x720r60 => seq![1280u32, 110u32, 40u32, 220u32, 720u32, 5u32, 5u32, 20u32],
            DefaultVideoMode::V1024x768r60 => seq![1024u32, 24u32, 136u32, 160u32, 768u32, 3u32, 6u32, 29u32],
            DefaultVideoMode::V720x480r60 => seq![720u32, 16u32, 62u32, 60u32, 480u32, 9u32, 6u32, 30u32],
            DefaultVideoMode::V720x576r50 => seq![720u32, 12u32, 64u32, 68u32, 576u32, 5u32, 5u32, 39u32],
            DefaultVideoMode::V1280x1024r60 => seq![1280u32, 48u32, 112u32, 248u32, 1024u32, 1u32, 3u32, 38u32],
            DefaultVideoMode::V800x600r60 => seq![800u32, 40u32, 128u32, 88u32, 600u32, 1u32, 4u32, 23u32],
            DefaultVideoMode::V640x480r60 => seq![640u32, 16u32, 96u32, 48u32, 480u32, 10u32, 2u32, 33u32],
            DefaultVideoMode::V1280x720r50 => seq![1280u32, 440u32, 40u32, 220u32, 720u32, 5u32, 5u32, 20u32],
            DefaultVideoMode::V1920x1080r60 => seq![1920u32, 88u32, 44u32, 148u32, 1080u32, 4u32, 5u32, 36u32],
            DefaultVideoMode::V1920x1080r50 => seq![1920u32, 528u32, 44u32, 148u32, 1080u32, 4u32, 5u32, 36u32],
            DefaultVideoMode::V1366x768r60 => seq![1366u32, 70u32, 143u32, 213u32, 768u32, 3u32, 3u32, 24u32],
            DefaultVideoMode::V1024x600r60 => seq![1024u32, 40u32, 104u32, 144u32, 600u32, 1u32, 3u32, 18u32],
            DefaultVideoMode::V1920x1440r60 => seq![1920u32, 48u32, 32u32, 80u32, 1440u32, 2u32, 4u32, 38u32],
            DefaultVideoMode::V2048x1536r60 => seq![2048u32, 48u32, 32u32, 80u32, 1536u32, 2u32, 4u32, 38u32],
            DefaultVideoMode::V2560x1440r60 => seq![2560u32, 24u32, 16u32, 40u32, 1440u32, 3u32, 5u32, 33u32],
            DefaultVideoMode::Ntsc15K => seq![640u32, 30u32, 60u32, 70u32, 240u32, 4u32, 4u32, 14u32],
            DefaultVideoMode::Ntsc31K => seq![640u32, 16u32, 96u32, 48u32, 480u32, 8u32, 4u32, 33u32],
            DefaultVideoMode::Pal15k => seq![640u32, 30u32, 60u32, 70u32, 288u32, 6u32, 4u32, 14u32],
            DefaultVideoMode::Pal31k => seq![640u32, 16u32, 96u32, 48u32, 576u32, 2u32, 4u32, 42u32],
        }
    }

    /// The pixel clock of the mode, in hertz.
    pub open spec fn spec_f_pix(self) -> u32 {
        match self {
            DefaultVideoMode::V1280x720r60 => 74_250_000,
            DefaultVideoMode::V1024x768r60 => 65_000_000,
            DefaultVideoMode::V720x480r60 => 27_000_000,
            DefaultVideoMode::V720x576r50 => 27_000_000,
            DefaultVideoMode::V1280x1024r60 => 108_000_000,
            DefaultVideoMode::V800x600r60 => 40_000_000,
            DefaultVideoMode::V640x480r60 => 25_175_000,
            DefaultVideoMode::V1280x720r50 => 74_250_000,
            DefaultVideoMode::V1920x1080r60 => 148_500_000,
            DefaultVideoMode::V1920x1080r50 => 148_500_000,
            DefaultVideoMode::V1366x768r60 => 85_500_000,
            DefaultVideoMode::V1024x600r60 => 48_960_000,
            DefaultVideoMode::V1920x1440r60 => 185_203_000,
            DefaultVideoMode::V2048x1536r60 => 209_318_000,
            DefaultVideoMode::V2560x1440r60 => 120_750_000,
            DefaultVideoMode::Ntsc15K => 12_587_000,
            DefaultVideoMode::Ntsc31K => 25_175_000,
            DefaultVideoMode::Pal15k => 12_587_000,
            DefaultVideoMode::Pal31k => 25_175_000,
        }
    }

    /// The video identification code of the mode; 0 where it has none.
    pub open spec fn spec_vic_mode(self) -> u32 {
        match self {
            DefaultVideoMode::V1280x720r60 => 4,
            DefaultVideoMode::V1024x768r60 => 0,
            DefaultVideoMode::V720x480r60 => 3,
            DefaultVideoMode::V720x576r50 => 8,
            DefaultVideoMode::V1280x1024r60 => 0,
            DefaultVideoMode::V800x600r60 => 0,
            DefaultVideoMode::V640x480r60 => 1,
            DefaultVideoMode::V1280x720r50 => 9,
            DefaultVideoMode::V1920x1080r60 => 6,
            DefaultVideoMode::V1920x1080r50 => 1,
            DefaultVideoMode::V1366x768r60 => 0,
            DefaultVideoMode::V1024x600r60 => 0,
            DefaultVideoMode::V1920x1440r60 => 0,
            DefaultVideoMode::V2048x1536r60 => 0,
            DefaultVideoMode::V2560x1440r60 => 0,
            DefaultVideoMode::Ntsc15K => 0,
            DefaultVideoMode::Ntsc31K => 0,
            DefaultVideoMode::Pal15k => 0,
            DefaultVideoMode::Pal31k => 0,
        }
    }

    /// The number of the mode.
    pub fn index(&self) -> (r: u8)
        ensures
            r == self.spec_index(),
            r < DEFAULT_VIDEO_MODES,
            DefaultVideoMode::spec_from_repr(r) == Some(*self),
    {
        match self {
            DefaultVideoMode::V1280x720r60 => 0,
            DefaultVideoMode::V1024x768r60 => 1,
            DefaultVideoMode::V720x480r60 => 2,
            DefaultVideoMode::V720x576r50 => 3,
            DefaultVideoMode::V1280x1024r60 => 4,
            DefaultVideoMode::V800x600r60 => 5,
            DefaultVideoMode::V640x480r60 => 6,
            DefaultVideoMode::V1280x720r50 => 7,
            DefaultVideoMode::V1920x1080r60 => 8,
            DefaultVideoMode::V1920x1080r50 => 9,
            DefaultVideoMode::V1366x768r60 => 10,
            DefaultVideoMode::V1024x600r60 => 11,
            DefaultVideoMode::V1920x1440r60 => 12,
            DefaultVideoMode::V2048x1536r60 => 13,
            DefaultVideoMode::V2560x1440r60 => 14,
            DefaultVideoMode::Ntsc15K => 15,
            DefaultVideoMode::Ntsc31K => 16,
            DefaultVideoMode::Pal15k => 17,
            DefaultVideoMode::Pal31k => 18,
        }
    }

    /// The mode of a number; `None` where the number is that of no mode.
    pub fn from_repr(index: u8) -> (r: Option<DefaultVideoMode>)
        ensures
            r == DefaultVideoMode::spec_from_repr(index),
            r.is_some() <==> index < DEFAULT_VIDEO_MODES,
            r.is_some() ==> r.unwrap().spec_index() == index,
    {
        if index == 0 {
            Some(DefaultVideoMode::V1280x720r60)
        } else if index == 1 {
            Some(DefaultVideoMode::V1024x768r60)
        } else if index == 2 {
            Some(DefaultVideoMode::V720x480r60)
        } else if index == 3 {
            Some(DefaultVideoMode::V720x576r50)
        } else if index == 4 {
            Some(DefaultVideoMode::V1280x1024r60)
        } else if index == 5 {
            Some(DefaultVideoMode::V800x600r60)
        } else if index == 6 {
            Some(DefaultVideoMode::V640x480r60)
        } else if index == 7 {
            Some(DefaultVideoMode::V1280x720r50)
        } else if index == 8 {
            Some(DefaultVideoMode::V1920x1080r60)
        } else if index == 9 {
            Some(DefaultVideoMode::V1920x1080r50)
        } else if index == 10 {
            Some(DefaultVideoMode::V1366x768r60)
        } else if index == 11 {
            Some(DefaultVideoMode::V1024x600r60)
        } else if index == 12 {
            Some(DefaultVideoMode::V1920x1440r60)
        } else if index == 13 {
            Some(DefaultVideoMode::V2048x1536r60)
        } else if index == 14 {
            Some(DefaultVideoMode::V2560x1440r60)
        } else if index == 15 {
            Some(DefaultVideoMode::Ntsc15K)
        } else if index == 16 {
            Some(DefaultVideoMode::Ntsc31K)
        } else if index == 17 {
            Some(DefaultVideoMode::Pal15k)
        } else if index == 18 {
            Some(DefaultVideoMode::Pal31k)
        } else {
            None
        }
    }

    /// The name of the mode.
    pub fn name(&self) -> (r: &'static str)
        ensures
            r@ == self.spec_name(),
    {
        match self {
            DefaultVideoMode::V1280x720r60 => "V1280x720r60",
            DefaultVideoMode::V1024x768r60 => "V1024x768r60",
            DefaultVideoMode::V720x480r60 => "V720x480r60",
            DefaultVideoMode::V720x576r50 => "V720x576r50",
            DefaultVideoMode::V1280x1024r60 => "V1280x1024r60",
            DefaultVideoMode::V800x600r60 => "V800x600r60",
            DefaultVideoMode::V640x480r60 => "V640x480r60",
            DefaultVideoMode::V1280x720r50 => "V1280x720r50",
            DefaultVideoMode::V1920x1080r60 => "V1920x1080r60",
            DefaultVideoMode::V1920x1080r50 => "V1920x1080r50",
            DefaultVideoMode::V1366x768r60 => "V1366x768r60",
            DefaultVideoMode::V1024x600r60 => "V1024x600r60",
            DefaultVideoMode::V1920x1440r60 => "V1920x1440r60",
            DefaultVideoMode::V2048x1536r60 => "V2048x1536r60",
            DefaultVideoMode::V2560x1440r60 => "V2560x1440r60",
            DefaultVideoMode::Ntsc15K => "Ntsc15K",
            DefaultVideoMode::Ntsc31K => "Ntsc31K",
            DefaultVideoMode::Pal15k => "Pal15k",
            DefaultVideoMode::Pal31k => "Pal31k",
        }
    }

    /// The mode of a name; `None` where no mode has that name.
    pub fn from_str(s: &str) -> (r: Option<DefaultVideoMode>)
        ensures
            r == DefaultVideoMode::spec_from_str(s@),
            r.is_some() ==> r.unwrap().spec_name() == s@,
    {
        if str_eq(s, "V1280x720r60") {
            Some(DefaultVideoMode::V1280x720r60)
        } else if str_eq(s, "V1024x768r60") {
            Some(DefaultVideoMode::V1024x768r60)
        } else if str_eq(s, "V720x480r60") {
            Some(DefaultVideoMode::V720x480r60)
        } else if str_eq(s, "V720x576r50") {
            Some(DefaultVideoMode::V720x576r50)
        } else if str_eq(s, "V1280x1024r60") {
            Some(DefaultVideoMode::V1280x1024r60)
        } else if str_eq(s, "V800x600r60") {
            Some(DefaultVideoMode::V800x600r60)
        } else if str_eq(s, "V640x480r60") {
            Some(DefaultVideoMode::V640x480r60)
        } else if str_eq(s, "V1280x720r50") {
            Some(DefaultVideoMode::V1280x720r50)
        } else if str_eq(s, "V1920x1080r60") {
            Some(DefaultVideoMode::V1920x1080r60)
        } else if str_eq(s, "V1920x1080r50") {
            Some(DefaultVideoMode::V1920x1080r50)
        } else if str_eq(s, "V1366x768r60") {
            Some(DefaultVideoMode::V1366x768r60)
        } else if str_eq(s, "V1024x600r60") {
            Some(DefaultVideoMode::V1024x600r60)
        } else if str_eq(s, "V1920x1440r60") {
            Some(DefaultVideoMode::V1920x1440r60)
        } else if str_eq(s, "V2048x1536r60") {
            Some(DefaultVideoMode::V2048x1536r60)
        } else if str_eq(s, "V2560x1440r60") {
            Some(DefaultVideoMode::V2560x1440r60)
        } else if str_eq(s, "Ntsc15K") {
            Some(DefaultVideoMode::Ntsc15K)
        } else if str_eq(s, "Ntsc31K") {
            Some(DefaultVideoMode::Ntsc31K)
        } else if str_eq(s, "Pal15k") {
            Some(DefaultVideoMode::Pal15k)
        } else if str_eq(s, "Pal31k") {
            Some(DefaultVideoMode::Pal31k)
        } else {
            None
        }
    }

    /// The timing of the mode: active, front porch, sync and back porch,
    /// first of the lines and then of the frame.
    pub fn v_param(&self) -> (r: [u32; 8])
        ensures
            r@ == self.spec_v_param(),
    {
        match self {
            DefaultVideoMode::V1280x720r60 => row(1280, 110, 40, 220, 720, 5, 5, 20),
            DefaultVideoMode::V1024x768r60 => row(1024, 24, 136, 160, 768, 3, 6, 29),
            DefaultVideoMode::V720x480r60 => row(720, 16, 62, 60, 480, 9, 6, 30),
            DefaultVideoMode::V720x576r50 => row(720, 12, 64, 68, 576, 5, 5, 39),
            DefaultVideoMode::V1280x1024r60 => row(1280, 48, 112, 248, 1024, 1, 3, 38),
            DefaultVideoMode::V800x600r60 => row(800, 40, 128, 88, 600, 1, 4, 23),
            DefaultVideoMode::V640x480r60 => row(640, 16, 96, 48, 480, 10, 2, 33),
            DefaultVideoMode::V1280x720r50 => row(1280, 440, 40, 220, 720, 5, 5, 20),
            DefaultVideoMode::V1920x1080r60 => row(1920, 88, 44, 148, 1080, 4, 5, 36),
            DefaultVideoMode::V1920x1080r50 => row(1920, 528, 44, 148, 1080, 4, 5, 36),
            DefaultVideoMode::V1366x768r60 => row(1366, 70, 143, 213, 768, 3, 3, 24),
            DefaultVideoMode::V1024x600r60 => row(1024, 40, 104, 144, 600, 1, 3, 18),
            DefaultVideoMode::V1920x1440r60 => row(1920, 48, 32, 80, 1440, 2, 4, 38),
            DefaultVideoMode::V2048x1536r60 => row(2048, 48, 32, 80, 1536, 2, 4, 38),
            DefaultVideoMode::V2560x1440r60 => row(2560, 24, 16, 40, 1440, 3, 5, 33),
            DefaultVideoMode::Ntsc15K => row(640, 30, 60, 70, 240, 4, 4, 14),
            DefaultVideoMode::Ntsc31K => row(640, 16, 96, 48, 480, 8, 4, 33),
            DefaultVideoMode::Pal15k => row(640, 30, 60, 70, 288, 6, 4, 14),
            DefaultVideoMode::Pal31k => row(640, 16, 96, 48, 576, 2, 4, 42),
        }
    }

    /// The pixel clock of the mode, in hertz.
    pub fn f_pix(&self) -> (r: u32)
        ensures
            r == self.spec_f_pix(),
            r > 0,
    {
        match self {
            DefaultVideoMode::V1280x720r60 => 74_250_000,
            DefaultVideoMode::V1024x768r60 => 65_000_000,
            DefaultVideoMode::V720x480r60 => 27_000_000,
            DefaultVideoMode::V720x576r50 => 27_000_000,
            DefaultVideoMode::V1280x1024r60 => 108_000_000,
            DefaultVideoMode::V800x600r60 => 40_000_000,
            DefaultVideoMode::V640x480r60 => 25_175_000,
            DefaultVideoMode::V1280x720r50 => 74_250_000,
            DefaultVideoMode::V1920x1080r60 => 148_500_000,
            DefaultVideoMode::V1920x1080r50 => 148_500_000,
            DefaultVideoMode::V1366x768r60 => 85_500_000,
            DefaultVideoMode::V1024x600r60 => 48_960_000,
            DefaultVideoMode::V1920x1440r60 => 185_203_000,
            DefaultVideoMode::V2048x1536r60 => 209_318_000,
            DefaultVideoMode::V2560x1440r60 => 120_750_000,
            DefaultVideoMode::Ntsc15K => 12_587_000,
            DefaultVideoMode::Ntsc31K => 25_175_000,
            DefaultVideoMode::Pal15k => 12_587_000,
            DefaultVideoMode::Pal31k => 25_175_000,
        }
    }

    /// The video identification code of the mode; 0 where it has none.
    pub fn vic_mode(&self) -> (r: u32)
        ensures
            r == self.spec_vic_mode(),
    {
        match self {
            DefaultVideoMode::V1280x720r60 => 4,
            DefaultVideoMode::V1024x768r60 => 0,
            DefaultVideoMode::V720x480r60 => 3,
            DefaultVideoMode::V720x576r50 => 8,
            DefaultVideoMode::V1280x1024r60 => 0,
            DefaultVideoMode::V800x600r60 => 0,
            DefaultVideoMode::V640x480r60 => 1,
            DefaultVideoMode::V1280x720r50 => 9,
            DefaultVideoMode::V1920x1080r60 => 6,
            DefaultVideoMode::V1920x1080r50 => 1,
            DefaultVideoMode::V1366x768r60 => 0,
            DefaultVideoMode::V1024x600r60 => 0,
            DefaultVideoMode::V1920x1440r60 => 0,
            DefaultVideoMode::V2048x1536r60 => 0,
            DefaultVideoMode::V2560x1440r60 => 0,
            DefaultVideoMode::Ntsc15K => 0,
            DefaultVideoMode::Ntsc31K => 0,
            DefaultVideoMode::Pal15k => 0,
            DefaultVideoMode::Pal31k => 0,
        }
    }
}

/// The parameters of a video mode as the core takes them.
#[derive(Clone, Copy, Debug)]
pub struct CustomVideoModeParam {
    /// The number of the mode.
    pub mode: u32,
    /// Active pixels of a line.
    pub hact: u32,
    /// Horizontal front porch.
    pub hfp: u32,
    /// Horizontal sync.
    pub hs: u32,
    /// Horizontal back porch.
    pub hbp: u32,
    /// Active lines of a frame.
    pub vact: u32,
    /// Vertical front porch.
    pub vfp: u32,
    /// Vertical sync.
    pub vs: u32,
    /// Vertical back porch.
    pub vbp: u32,
    /// The PLL configuration block.
    pub pll: [u32; 12],
    /// Polarity of the horizontal sync.
    pub hpol: u32,
    /// Polarity of the vertical sync.
    pub vpol: u32,
    /// The video identification code.
    pub vic: u32,
    /// The reduced-blanking flag.
    pub rb: u32,
    /// The pixel-repetition flag.
    pub pr: u32,
}

/// Number of words in the wire form of a descriptor.
pub const WIRE_WORDS: usize = 26;

impl CustomVideoModeParam {
    /// The parameters with every field zero.
    pub open spec fn spec_default() -> CustomVideoModeParam {
        CustomVideoModeParam {
            mode: 0,
            hact: 0,
            hfp: 0,
            hs: 0,
            hbp: 0,
            vact: 0,
            vfp: 0,
            vs: 0,
            vbp: 0,
            pll: [0u32, 0u32, 0u32, 0u32, 0u32, 0u32, 0u32, 0u32, 0u32, 0u32, 0u32, 0u32],
            hpol: 0,
            vpol: 0,
            vic: 0,
            rb: 0,
            pr: 0,
        }
    }

    /// The parameters of a fixed mode: its number and its timing, all else
    /// zero.
    pub open spec fn spec_from_mode(mode: DefaultVideoMode) -> CustomVideoModeParam {
        CustomVideoModeParam {
            mode: mode.spec_index() as u32,
            hact: mode.spec_v_param()[0],
            hfp: mode.spec_v_param()[1],
            hs: mode.spec_v_param()[2],
            hbp: mode.spec_v_param()[3],
            vact: mode.spec_v_param()[4],
            vfp: mode.spec_v_param()[5],
            vs: mode.spec_v_param()[6],
            vbp: mode.spec_v_param()[7],
            ..CustomVideoModeParam::spec_default()
        }
    }

    /// Pixel periods in one line, blanking included.
    pub open spec fn spec_h_total(self) -> int {
        self.hact + self.hfp + self.hbp + self.hs
    }

    /// Lines in one frame, blanking included.
    pub open spec fn spec_v_total(self) -> int {
        self.vact + self.vfp + self.vbp + self.vs
    }

    /// Pixel periods in one frame, blanking included.
    pub open spec fn spec_total_pixels(self) -> int {
        self.spec_h_total() * self.spec_v_total()
    }

    /// The wire form: the mode, the four horizontal and the four vertical
    /// fields, the PLL block, the two polarities, the video identification
    /// code, the reduced-blanking and the pixel-repetition flag.
    pub open spec fn spec_wire_words(self) -> Seq<u32> {
        seq![self.mode, self.hact, self.hfp, self.hs, self.hbp, self.vact, self.vfp, self.vs, self.vbp]
            + self.pll@ + seq![self.hpol, self.vpol, self.vic, self.rb, self.pr]
    }

    /// Pixel periods in one line, blanking included.
    pub fn h_total(&self) -> (r: u64)
        ensures
            r == self.spec_h_total(),
    {
        self.hact as u64 + self.hfp as u64 + self.hbp as u64 + self.hs as u64
    }

    /// Lines in one frame, blanking included.
    pub fn v_total(&self) -> (r: u64)
        ensures
            r == self.spec_v_total(),
    {
        self.vact as u64 + self.vfp as u64 + self.vbp as u64 + self.vs as u64
    }

    /// Pixel periods in one frame, blanking included.
    pub fn total_pixels(&self) -> (r: u128)
        ensures
            r == self.spec_total_pixels(),
    {
        let h = self.h_total();
        let v = self.v_total();
        assert(h as int * v as int <= 0x4_0000_0000 * 0x4_0000_0000) by (nonlinear_arith)
            requires
                0 <= h as int <= 0x4_0000_0000,
                0 <= v as int <= 0x4_0000_0000,
        ;
        (h as u128) * (v as u128)
    }

    /// The wire form of the parameters, in the order in which the core
    /// takes them.
    pub fn wire_words(&self) -> (r: Vec<u32>)
        ensures
            r@ == self.spec_wire_words(),
            r@.len() == WIRE_WORDS,
    {
        let mut r: Vec<u32> = Vec::new();
        r.push(self.mode);
        r.push(self.hact);
        r.push(self.hfp);
        r.push(self.hs);
        r.push(self.hbp);
        r.push(self.vact);
        r.push(self.vfp);
        r.push(self.vs);
        r.push(self.vbp);
        let mut i: usize = 0;
        while i < 12
            invariant
                i <= 12,
                r@ == seq![
                    self.mode,
                    self.hact,
                    self.hfp,
                    self.hs,
                    self.hbp,
                    self.vact,
                    self.vfp,
                    self.vs,
                    self.vbp,
                ] + self.pll@.subrange(0, i as int),
            decreases 12 - i,
        {
            r.push(self.pll[i]);
            i = i + 1;
            assert(self.pll@.subrange(0, i as int) =~= self.pll@.subrange(0, i as int - 1).push(
                self.pll@[i as int - 1],
            ));
        }
        assert(self.pll@.subrange(0, 12) =~= self.pll@);
        r.push(self.hpol);
        r.push(self.vpol);
        r.push(self.vic);
        r.push(self.rb);
        r.push(self.pr);
        assert(r@ =~= self.spec_wire_words());
        r
    }
}

impl Default for CustomVideoModeParam {
    fn default() -> (r: CustomVideoModeParam)
        ensures
            r == CustomVideoModeParam::spec_default(),
    {
        CustomVideoModeParam {
            mode: 0,
            hact: 0,
            hfp: 0,
            hs: 0,
            hbp: 0,
            vact: 0,
            vfp: 0,
            vs: 0,
            vbp: 0,
            pll: [0, 0, 0, 0, 0, 0, 0, 0, 0, 0, 0, 0],
            hpol: 0,
            vpol: 0,
            vic: 0,
            rb: 0,
            pr: 0,
        }
    }
}

impl From<DefaultVideoMode> for CustomVideoModeParam {
    fn from(mode: DefaultVideoMode) -> (r: CustomVideoModeParam) {
        let vpar = mode.v_param();
        CustomVideoModeParam {
            mode: mode.index() as u32,
            hact: vpar[0],
            hfp: vpar[1],
            hs: vpar[2],
            hbp: vpar[3],
            vact: vpar[4],
            vfp: vpar[5],
            vs: vpar[6],
            vbp: vpar[7],
            pll: [0, 0, 0, 0, 0, 0, 0, 0, 0, 0, 0, 0],
            hpol: 0,
            vpol: 0,
            vic: 0,
            rb: 0,
            pr: 0,
        }
    }
}

impl vstd::std_specs::convert::FromSpecImpl<DefaultVideoMode> for CustomVideoModeParam {
    open spec fn obeys_from_spec() -> bool {
        true
    }

    open spec fn from_spec(mode: DefaultVideoMode) -> CustomVideoModeParam {
        CustomVideoModeParam::spec_from_mode(mode)
    }
}

/// The PLL configuration block of a setting: register numbers, each followed
/// by its value.
pub open spec fn spec_pll_block(p: Pll) -> [u32; 12] {
    [
        4u32,
        spec_pll_div(p.m),
        3u32,
        0x10000u32,
        5u32,
        spec_pll_div(p.c),
        9u32,
        2u32,
        8u32,
        7u32,
        7u32,
        spec_k_register(p.ko) as u32,
    ]
}

/// A timing descriptor: the parameters that the core takes, and the pixel
/// clock that they are meant for.
#[derive(Clone, Copy, Debug)]
pub struct CustomVideoMode {
    /// The parameters as the core takes them.
    pub param: CustomVideoModeParam,
    /// Whether the refresh rate is variable.
    pub vrr: bool,
    /// The pixel clock, in hertz.
    pub f_pix: u32,
}

impl CustomVideoMode {
    /// The descriptor with every field zero.
    pub open spec fn spec_default() -> CustomVideoMode {
        CustomVideoMode { param: CustomVideoModeParam::spec_default(), vrr: false, f_pix: 0 }
    }

    /// The descriptor after the PLL has been set for the pixel clock `f_out`:
    /// the PLL block is that of the setting chosen for `f_out`, and `f_out`
    /// is the pixel clock that the descriptor is meant for.
    pub open spec fn spec_set_pll(self, f_out: u32) -> CustomVideoMode {
        let p = spec_find_pll(f_out as int);
        CustomVideoMode {
            param: CustomVideoModeParam { pll: spec_pll_block(p), ..self.param },
            vrr: self.vrr,
            f_pix: f_out,
        }
    }

    /// The descriptor of a fixed mode, with its PLL set.
    pub open spec fn spec_from_mode(mode: DefaultVideoMode) -> CustomVideoMode {
        CustomVideoMode {
            param: CustomVideoModeParam::spec_from_mode(mode),
            vrr: false,
            f_pix: mode.spec_f_pix(),
        }.spec_set_pll(mode.spec_f_pix())
    }

    /// The frame rate in millihertz, rounded down: the pixel clock over the
    /// pixel periods of one frame. A frame without pixels has none.
    pub open spec fn spec_frame_rate(self) -> Option<int> {
        if self.param.spec_total_pixels() == 0 {
            None
        } else {
            Some((self.f_pix as int * 1000) / self.param.spec_total_pixels())
        }
    }

    /// Sets the PLL for the pixel clock `f_out`, in hertz, and records
    /// `f_out` as the pixel clock that the descriptor is meant for. Nothing
    /// else of the descriptor changes.
    pub fn set_pll(&mut self, f_out: u32)
        requires
            f_out > 0,
        ensures
            *final(self) == old(self).spec_set_pll(f_out),
    {
        let p = find_pll(f_out);
        let k = k_register(p.ko);
        self.param.pll = [
            4,
            get_pll_div_(p.m),
            3,
            0x10000,
            5,
            get_pll_div_(p.c),
            9,
            2,
            8,
            7,
            7,
            k,
        ];
        self.f_pix = f_out;
    }

    /// The frame rate in millihertz, rounded down; `None` for a frame
    /// without pixels.
    pub fn frame_rate(&self) -> (r: Option<u64>)
        ensures
            r.is_some() == self.spec_frame_rate().is_some(),
            r.is_some() ==> r.unwrap() as int == self.spec_frame_rate().unwrap(),
    {
        let total = self.param.total_pixels();
        if total == 0 {
            None
        } else {
            let scaled: u128 = (self.f_pix as u128) * 1000;
            proof {
                vstd::arithmetic::div_mod::lemma_div_is_ordered_by_denominator(
                    scaled as int,
                    1,
                    total as int,
                );
                vstd::arithmetic::div_mod::lemma_div_pos_is_pos(scaled as int, total as int);
            }
            Some((scaled / total) as u64)
        }
    }
}

impl Default for CustomVideoMode {
    fn default() -> (r: CustomVideoMode)
        ensures
            r == CustomVideoMode::spec_default(),
    {
        CustomVideoMode { param: CustomVideoModeParam::default(), vrr: false, f_pix: 0 }
    }
}

impl From<DefaultVideoMode> for CustomVideoMode {
    fn from(mode: DefaultVideoMode) -> (r: CustomVideoMode) {
        let mut v = CustomVideoMode {
            param: CustomVideoModeParam::from(mode),
            vrr: false,
            f_pix: mode.f_pix(),
        };
        v.set_pll(mode.f_pix());
        v
    }
}

impl vstd::std_specs::convert::FromSpecImpl<DefaultVideoMode> for CustomVideoMode {
    open spec fn obeys_from_spec() -> bool {
        true
    }

    open spec fn from_spec(mode: DefaultVideoMode) -> CustomVideoMode {
        CustomVideoMode::spec_from_mode(mode)
    }
}

/// Setting the PLL twice for the same pixel clock gives the descriptor that
/// setting it once gives.
pub proof fn law_set_pll_idempotent(d: CustomVideoMode, f_out: u32)
    ensures
        d.spec_set_pll(f_out).spec_set_pll(f_out) == d.spec_set_pll(f_out),
{
}

/// The frame rate goes by the pixel clock and the frame alone: after the
/// PLL has been set for a pixel clock, the frame rate is that pixel clock
/// over the pixel periods of the unchanged frame.
pub proof fn law_frame_rate_follows_pixel_clock(d: CustomVideoMode, f_out: u32)
    ensures
        d.spec_set_pll(f_out).param.spec_total_pixels() == d.param.spec_total_pixels(),
        d.spec_set_pll(f_out).spec_frame_rate() == (if d.param.spec_total_pixels() == 0 {
            None
        } else {
            Some((f_out as int * 1000) / d.param.spec_total_pixels())
        }),
{
}

} // verus!
