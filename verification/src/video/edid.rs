//! Display identification data: the raw block that a display hands out, and
//! the preferred timing that it describes.

use super::mode::{CustomVideoMode, CustomVideoModeParam, DefaultVideoMode};
use vstd::prelude::*;

verus! {

/// Length of a block of display identification data, in bytes.
pub const EDID_SIZE: usize = 256;

/// Offset of the preferred timing within the block.
pub const PREFERRED_TIMING_OFFSET: usize = 0x36;

/// The lowest pixel clock that a block may name, in hertz.
pub const PIXEL_CLOCK_MIN_HZ: u32 = 10_000_000;

/// The highest pixel clock that the hardware takes, in hertz.
pub const PIXEL_CLOCK_MAX_HZ: u32 = 210_000_000;

/// The widest preferred mode that is taken from a display.
pub const H_ACTIVE_MAX: u32 = 2048;

/// The frame rate to which a mode with too fast a pixel clock is reduced, in
/// hertz.
pub const REDUCED_FRAME_RATE_HZ: u64 = 60;

/// Number of reads after which a display that hands out no valid block is
/// given up.
pub const READ_ATTEMPTS: u32 = 20;

/// Time between two reads, in milliseconds.
pub const RETRY_MS: u32 = 100;

/// The eight bytes with which a valid block starts.
pub open spec fn spec_edid_header() -> Seq<u8> {
    seq![0x00u8, 0xFFu8, 0xFFu8, 0xFFu8, 0xFFu8, 0xFFu8, 0xFFu8, 0x00u8]
}

/// Whether a block starts with the header.
pub open spec fn spec_is_edid_valid(edid: Seq<u8>) -> bool {
    edid.len() >= 8 && edid.subrange(0, 8) == spec_edid_header()
}

/// Whether a block starts with the header. A block shorter than the header
/// does not.
pub fn is_edid_valid(edid: &[u8]) -> (r: bool)
    ensures
        r == spec_is_edid_valid(edid@),
{
    if edid.len() < 8 {
        return false;
    }
    let r = edid[0] == 0x00 && edid[1] == 0xFF && edid[2] == 0xFF && edid[3] == 0xFF && edid[4]
        == 0xFF && edid[5] == 0xFF && edid[6] == 0xFF && edid[7] == 0x00;
    proof {
        let h = edid@.subrange(0, 8);
        if r {
            assert(h =~= spec_edid_header());
        } else {
            assert(h[0] == edid@[0] && h[1] == edid@[1] && h[2] == edid@[2] && h[3] == edid@[3]
                && h[4] == edid@[4] && h[5] == edid@[5] && h[6] == edid@[6] && h[7] == edid@[7]);
        }
    }
    r
}

/// Whether the transmitter senses a display, given its hot-plug state.
pub fn hdmi_connected(hpd_state: u8) -> (r: bool)
    ensures
        r == (hpd_state & 0x20 != 0),
{
    hpd_state & 0x20 != 0
}

/// Number of times the hot-plug detection of the transmitter is reset
/// before the block is read.
pub const HPD_RESETS: usize = 10;

/// The register of the transmitter that resets its hot-plug detection.
pub const HPD_REGISTER: u8 = 0xC9;

/// The writes that reset the hot-plug detection of the transmitter, each as
/// the register and the value: ten times the value 0x03 and then the value
/// 0x13.
pub fn hpd_reset_writes() -> (r: Vec<(u8, u8)>)
    ensures
        r@.len() == 2 * HPD_RESETS,
        forall|i: int|
            0 <= i < r@.len() ==> #[trigger] r@[i] == (if i % 2 == 0 {
                (HPD_REGISTER, 0x03u8)
            } else {
                (HPD_REGISTER, 0x13u8)
            }),
{
    let mut r: Vec<(u8, u8)> = Vec::new();
    let mut i: usize = 0;
    while i < HPD_RESETS
        invariant
            i <= HPD_RESETS,
            r@.len() == 2 * i,
            forall|j: int|
                0 <= j < r@.len() ==> #[trigger] r@[j] == (if j % 2 == 0 {
                    (HPD_REGISTER, 0x03u8)
                } else {
                    (HPD_REGISTER, 0x13u8)
                }),
        decreases HPD_RESETS - i,
    {
        r.push((HPD_REGISTER, 0x03));
        r.push((HPD_REGISTER, 0x13));
        i = i + 1;
    }
    r
}

/// A block of display identification data.
#[derive(Clone, Copy, Debug)]
pub struct Edid {
    inner: [u8; 256],
}

impl View for Edid {
    type V = Seq<u8>;

    closed spec fn view(&self) -> Seq<u8> {
        self.inner@
    }
}

impl Edid {
    /// Wraps a block.
    pub fn new(inner: [u8; 256]) -> (r: Edid)
        ensures
            r@ == inner@,
    {
        Edid { inner }
    }

    /// The block.
    pub fn into_inner(self) -> (r: [u8; 256])
        ensures
            r@ == self@,
    {
        self.inner
    }

    /// The block as a slice.
    pub fn as_slice(&self) -> (r: &[u8])
        ensures
            r@ == self@,
            r@.len() == EDID_SIZE,
    {
        self.inner.as_slice()
    }

    /// The block of the bytes that were read; `None` unless they are 256.
    pub fn from_slice(bytes: &[u8]) -> (r: Option<Edid>)
        ensures
            r.is_some() <==> bytes@.len() == EDID_SIZE,
            r.is_some() ==> r.unwrap()@ == bytes@,
    {
        if bytes.len() != EDID_SIZE {
            return None;
        }
        let mut inner: [u8; 256] = [0; 256];
        let mut i: usize = 0;
        while i < EDID_SIZE
            invariant
                i <= EDID_SIZE,
                bytes@.len() == EDID_SIZE,
                forall|j: int| 0 <= j < i ==> inner@[j] == bytes@[j],
            decreases EDID_SIZE - i,
        {
            inner[i] = bytes[i];
            i = i + 1;
        }
        assert(inner@ =~= bytes@);
        Some(Edid { inner })
    }
}

/// Why a block gives no video mode.
#[derive(Clone, Copy, Debug, PartialEq, Eq, Structural)]
pub enum EdidError {
    /// The block is shorter than 256 bytes.
    Truncated,
    /// The block does not start with the header.
    InvalidHeader,
    /// The pixel clock is below 10 MHz.
    PixelClockTooLow,
    /// The preferred mode is interlaced.
    Interlaced,
    /// The blanking is shorter than the sync and the front porch together.
    InvalidBlanking,
    /// The pixel clock is too high and the frame holds no pixel from which a
    /// lower clock could be computed.
    EmptyFrame,
    /// The pixel clock is too high even at 60 Hz.
    PixelRateTooHigh,
    /// The pixel clock is too high although the frame rate is at most 60 Hz.
    FrameRateTooHigh,
}

impl EdidError {
    /// The error in words.
    pub open spec fn spec_message(self) -> Seq<char> {
        match self {
            EdidError::Truncated => "EDID: block is shorter than 256 bytes."@,
            EdidError::InvalidHeader => "EDID: invalid header."@,
            EdidError::PixelClockTooLow => "Invalid EDID: Pixelclock < 10 MHz, assuming invalid data."@,
            EdidError::Interlaced => "EDID: preferred mode is interlaced. Fall back to default video mode."@,
            EdidError::InvalidBlanking => "EDID: blanking is shorter than sync and front porch."@,
            EdidError::EmptyFrame => "EDID: preferred mode has no pixels."@,
            EdidError::PixelRateTooHigh => "EDID: Pixel rate too high, falling back to default video mode."@,
            EdidError::FrameRateTooHigh => "EDID: Frame rate too high. Falling back to default video mode."@,
        }
    }

    /// The error in words.
    pub fn message(&self) -> (r: &'static str)
        ensures
            r@ == self.spec_message(),
    {
        match self {
            EdidError::Truncated => "EDID: block is shorter than 256 bytes.",
            EdidError::InvalidHeader => "EDID: invalid header.",
            EdidError::PixelClockTooLow => "Invalid EDID: Pixelclock < 10 MHz, assuming invalid data.",
            EdidError::Interlaced => "EDID: preferred mode is interlaced. Fall back to default video mode.",
            EdidError::InvalidBlanking => "EDID: blanking is shorter than sync and front porch.",
            EdidError::EmptyFrame => "EDID: preferred mode has no pixels.",
            EdidError::PixelRateTooHigh => "EDID: Pixel rate too high, falling back to default video mode.",
            EdidError::FrameRateTooHigh => "EDID: Frame rate too high. Falling back to default video mode.",
        }
    }
}

/// The preferred timing of a display, as its block describes it.
#[derive(Clone, Copy, Debug, PartialEq, Eq, Structural)]
pub struct PreferredTiming {
    /// The pixel clock, in hertz.
    pub pixel_clock: u32,
    /// Active pixels of a line.
    pub hact: u32,
    /// Blanking of a line, in pixels.
    pub hblank: u32,
    /// Horizontal front porch.
    pub hfp: u32,
    /// Horizontal sync.
    pub hsync: u32,
    /// Active lines of a frame.
    pub vact: u32,
    /// Blanking of a frame, in lines.
    pub vblank: u32,
    /// Vertical front porch.
    pub vfp: u32,
    /// Vertical sync.
    pub vsync: u32,
    /// Whether the mode is interlaced.
    pub interlaced: bool,
}

/// A twelve-bit field: eight low bits and four high bits.
pub open spec fn spec_field12(low: u8, high: int) -> u32 {
    (low as int + high * 256) as u32
}

/// The preferred timing that a block of full length describes. The timing
/// stands at byte 0x36: the pixel clock in units of 10 kHz in two bytes, low
/// byte first, then the low bytes of the fields, with their high bits packed
/// into bytes 4, 7 and 11, and the flags in byte 17.
pub open spec fn spec_preferred_timing(edid: Seq<u8>) -> PreferredTiming {
    let x = edid.subrange(PREFERRED_TIMING_OFFSET as int, edid.len() as int);
    PreferredTiming {
        pixel_clock: ((x[0] as int + x[1] as int * 256) * 10_000) as u32,
        hact: spec_field12(x[2], x[4] as int / 16),
        hblank: spec_field12(x[3], x[4] as int % 16),
        hfp: spec_field12(x[8], x[11] as int / 64),
        hsync: spec_field12(x[9], (x[11] as int / 16) % 4),
        vact: spec_field12(x[5], x[7] as int / 16),
        vblank: spec_field12(x[6], x[7] as int % 16),
        vfp: (x[10] as int / 16 + ((x[11] as int / 4) % 4) * 16) as u32,
        vsync: (x[10] as int % 16 + (x[11] as int % 4) * 16) as u32,
        interlaced: x[17] >= 0x80,
    }
}

/// What parsing the preferred timing of a block gives: the timing, or the
/// first of the reasons for which the block is refused.
pub open spec fn spec_parse_preferred_timing(edid: Seq<u8>) -> Result<PreferredTiming, EdidError> {
    if edid.len() < EDID_SIZE {
        Err(EdidError::Truncated)
    } else if !spec_is_edid_valid(edid) {
        Err(EdidError::InvalidHeader)
    } else if spec_preferred_timing(edid).pixel_clock < PIXEL_CLOCK_MIN_HZ {
        Err(EdidError::PixelClockTooLow)
    } else {
        Ok(spec_preferred_timing(edid))
    }
}

/// Reads the preferred timing of a block. A block that is too short, does
/// not start with the header, or names a pixel clock below 10 MHz is refused.
pub fn parse_preferred_timing(edid: &[u8]) -> (r: Result<PreferredTiming, EdidError>)
    ensures
        r == spec_parse_preferred_timing(edid@),
        r.is_ok() ==> r.unwrap().pixel_clock >= PIXEL_CLOCK_MIN_HZ,
{
    if edid.len() < EDID_SIZE {
        return Err(EdidError::Truncated);
    }
    if !is_edid_valid(edid) {
        return Err(EdidError::InvalidHeader);
    }
    let ghost x = edid@.subrange(PREFERRED_TIMING_OFFSET as int, edid@.len() as int);
    let o: usize = PREFERRED_TIMING_OFFSET;
    assert(forall|i: int| 0 <= i < 18 ==> x[i] == edid@[o as int + i]);
    let pixel_clock: u32 = (edid[o] as u32 + (edid[o + 1] as u32) * 256) * 10_000;
    if pixel_clock < PIXEL_CLOCK_MIN_HZ {
        return Err(EdidError::PixelClockTooLow);
    }
    let x4: u32 = edid[o + 4] as u32;
    let x7: u32 = edid[o + 7] as u32;
    let x10: u32 = edid[o + 10] as u32;
    let x11: u32 = edid[o + 11] as u32;
    let t = PreferredTiming {
        pixel_clock,
        hact: edid[o + 2] as u32 + (x4 / 16) * 256,
        hblank: edid[o + 3] as u32 + (x4 % 16) * 256,
        hfp: edid[o + 8] as u32 + (x11 / 64) * 256,
        hsync: edid[o + 9] as u32 + ((x11 / 16) % 4) * 256,
        vact: edid[o + 5] as u32 + (x7 / 16) * 256,
        vblank: edid[o + 6] as u32 + (x7 % 16) * 256,
        vfp: x10 / 16 + ((x11 / 4) % 4) * 16,
        vsync: x10 % 16 + (x11 % 4) * 16,
        interlaced: edid[o + 17] >= 0x80,
    };
    Ok(t)
}

impl PreferredTiming {
    /// The parameters of the preferred mode: its timing, with the back porch
    /// being what the blanking leaves after the sync and the front porch, and
    /// all else zero.
    pub open spec fn spec_param(self) -> CustomVideoModeParam {
        CustomVideoModeParam {
            mode: 0,
            hact: self.hact,
            hfp: self.hfp,
            hs: self.hsync,
            hbp: (self.hblank - self.hsync - self.hfp) as u32,
            vact: self.vact,
            vfp: self.vfp,
            vs: self.vsync,
            vbp: (self.vblank - self.vsync - self.vfp) as u32,
            ..CustomVideoModeParam::spec_default()
        }
    }

    /// Whether the blanking holds the sync and the front porch.
    pub open spec fn spec_blanking_valid(self) -> bool {
        self.hblank >= self.hsync + self.hfp && self.vblank >= self.vsync + self.vfp
    }
}

/// A descriptor finished for the core: marked as reduced blanking, with its
/// PLL set for the pixel clock `f_pix`.
pub open spec fn spec_finish(param: CustomVideoModeParam, f_pix: u32) -> CustomVideoMode {
    (CustomVideoMode { param: CustomVideoModeParam { rb: 2, ..param }, vrr: false, f_pix }).spec_set_pll(
        f_pix,
    )
}

/// The parameters of the safe mode that stands in for a preferred mode of
/// 2048 by 1536 with too fast a pixel clock.
pub open spec fn spec_safe_param() -> CustomVideoModeParam {
    CustomVideoModeParam {
        vic: DefaultVideoMode::V2048x1536r60.spec_vic_mode(),
        ..CustomVideoModeParam::spec_from_mode(DefaultVideoMode::V2048x1536r60)
    }
}

/// The video mode that a block gives.
///
/// The preferred timing is taken as it is where its pixel clock is at most
/// 210 MHz. Above that, a preferred mode of 2048 by 1536 is replaced by the
/// safe mode of that resolution; any other mode whose frame rate is above
/// 60 Hz has its pixel clock reduced to what 60 Hz take, and is refused where
/// even that is above 210 MHz; a mode whose frame rate is at most 60 Hz is
/// refused.
pub open spec fn spec_parse_edid_vmode(edid: Seq<u8>) -> Result<CustomVideoMode, EdidError> {
    match spec_parse_preferred_timing(edid) {
        Err(e) => Err(e),
        Ok(t) => {
            let reduced = REDUCED_FRAME_RATE_HZ as int * t.spec_param().spec_total_pixels();
            if t.interlaced {
                Err(EdidError::Interlaced)
            } else if !t.spec_blanking_valid() {
                Err(EdidError::InvalidBlanking)
            } else if t.pixel_clock <= PIXEL_CLOCK_MAX_HZ {
                Ok(spec_finish(t.spec_param(), t.pixel_clock))
            } else if t.hact == 2048 && t.vact == 1536 {
                Ok(spec_finish(spec_safe_param(), DefaultVideoMode::V2048x1536r60.spec_f_pix()))
            } else if t.pixel_clock as int > reduced {
                if reduced == 0 {
                    Err(EdidError::EmptyFrame)
                } else if reduced <= PIXEL_CLOCK_MAX_HZ as int {
                    Ok(spec_finish(t.spec_param(), reduced as u32))
                } else {
                    Err(EdidError::PixelRateTooHigh)
                }
            } else {
                Err(EdidError::FrameRateTooHigh)
            }
        },
    }
}

/// Derives the video mode from a block of display identification data. The
/// flag `dvi` has no bearing on the mode.
pub fn parse_edid_vmode_(dvi: bool, edid: &[u8]) -> (r: Result<CustomVideoMode, EdidError>)
    ensures
        r == spec_parse_edid_vmode(edid@),
{
    let t = match parse_preferred_timing(edid) {
        Ok(t) => t,
        Err(e) => {
            return Err(e);
        },
    };
    if t.interlaced {
        return Err(EdidError::Interlaced);
    }
    if t.hblank < t.hsync + t.hfp || t.vblank < t.vsync + t.vfp {
        return Err(EdidError::InvalidBlanking);
    }
    let mut v = CustomVideoMode::default();
    v.param.mode = 0;
    v.param.hact = t.hact;
    v.param.hfp = t.hfp;
    v.param.hs = t.hsync;
    v.param.hbp = t.hblank - t.hsync - t.hfp;
    v.param.vact = t.vact;
    v.param.vfp = t.vfp;
    v.param.vs = t.vsync;
    v.param.vbp = t.vblank - t.vsync - t.vfp;
    v.f_pix = t.pixel_clock;
    assert(v.param == t.spec_param());
    if t.pixel_clock > PIXEL_CLOCK_MAX_HZ {
        if t.hact == 2048 && t.vact == 1536 {
            let mode = DefaultVideoMode::V2048x1536r60;
            v.param = CustomVideoModeParam::from(mode);
            v.param.vic = mode.vic_mode();
            v.f_pix = mode.f_pix();
        } else {
            let total = v.param.total_pixels();
            proof {
                assert(v.param.spec_h_total() <= 4 * 4095 && v.param.spec_v_total() <= 4 * 4095);
                assert(v.param.spec_total_pixels() <= 16380 * 16380) by (nonlinear_arith)
                    requires
                        0 <= v.param.spec_h_total() <= 16380,
                        0 <= v.param.spec_v_total() <= 16380,
                        v.param.spec_total_pixels() == v.param.spec_h_total()
                            * v.param.spec_v_total(),
                ;
            }
            let reduced: u64 = REDUCED_FRAME_RATE_HZ * (total as u64);
            if (t.pixel_clock as u64) > reduced {
                if reduced == 0 {
                    return Err(EdidError::EmptyFrame);
                } else if reduced <= PIXEL_CLOCK_MAX_HZ as u64 {
                    v.f_pix = reduced as u32;
                } else {
                    return Err(EdidError::PixelRateTooHigh);
                }
            } else {
                return Err(EdidError::FrameRateTooHigh);
            }
        }
    }
    v.param.rb = 2;
    let f_pix = v.f_pix;
    v.set_pll(f_pix);
    Ok(v)
}

/// The video mode that a display is driven with, given what reading its
/// block gave: none where nothing was read, where the block gives no mode, or
/// where the mode is wider than 2048 pixels.
pub open spec fn spec_get_edid_vmode(edid: Option<Seq<u8>>) -> Option<CustomVideoMode> {
    match edid {
        None => None,
        Some(bytes) => match spec_parse_edid_vmode(bytes) {
            Ok(vmode) => if vmode.param.hact > H_ACTIVE_MAX {
                None
            } else {
                Some(vmode)
            },
            Err(_) => None,
        },
    }
}

/// The video mode that a display is driven with, given what reading its
/// block gave (`None` where the read failed).
pub fn get_edid_vmode_(dvi: bool, edid: Option<&[u8]>) -> (r: Option<CustomVideoMode>)
    ensures
        r == spec_get_edid_vmode(
            match edid {
                Some(bytes) => Some(bytes@),
                None => None,
            },
        ),
{
    match edid {
        None => None,
        Some(bytes) => match parse_edid_vmode_(dvi, bytes) {
            Ok(vmode) => {
                if vmode.param.hact > H_ACTIVE_MAX {
                    None
                } else {
                    Some(vmode)
                }
            },
            Err(_) => None,
        },
    }
}

/// The next step of a reader that polls a display for its block.
#[derive(Clone, Copy, Debug, PartialEq, Eq, Structural)]
pub enum EdidPollStep {
    /// The block just read is valid: use it.
    Accept,
    /// Wait for so many milliseconds, then read again.
    Retry {
        /// The time to wait, in milliseconds.
        wait_ms: u32,
    },
    /// Give the display up.
    GiveUp,
}

/// The state of a reader that polls a display for its block: the number of
/// reads that gave no valid block.
#[derive(Clone, Copy, Debug)]
pub struct EdidPoll {
    failed: u32,
}

impl EdidPoll {
    /// The number of reads that gave no valid block.
    pub closed spec fn spec_failed(self) -> nat {
        self.failed as nat
    }

    /// Whether the state is one that a reader can be in.
    pub closed spec fn wf(self) -> bool {
        self.failed <= READ_ATTEMPTS
    }

    /// The state before the first read.
    pub fn new() -> (r: EdidPoll)
        ensures
            r.wf(),
            r.spec_failed() == 0,
    {
        EdidPoll { failed: 0 }
    }

    /// Takes the block that a read gave and says what to do next: a valid
    /// block is accepted; after an invalid one the reader waits and reads
    /// again, until twenty reads have failed.
    pub fn on_block(&mut self, block: &[u8]) -> (step: EdidPollStep)
        requires
            old(self).wf(),
        ensures
            final(self).wf(),
            spec_is_edid_valid(block@) ==> step == EdidPollStep::Accept && final(self).spec_failed()
                == old(self).spec_failed(),
            !spec_is_edid_valid(block@) && old(self).spec_failed() + 1 < READ_ATTEMPTS ==> step == (
            EdidPollStep::Retry { wait_ms: RETRY_MS }) && final(self).spec_failed() == old(
                self,
            ).spec_failed() + 1,
            !spec_is_edid_valid(block@) && old(self).spec_failed() + 1 >= READ_ATTEMPTS ==> step
                == EdidPollStep::GiveUp && final(self).spec_failed() == READ_ATTEMPTS,
    {
        if is_edid_valid(block) {
            EdidPollStep::Accept
        } else if self.failed + 1 < READ_ATTEMPTS {
            self.failed = self.failed + 1;
            EdidPollStep::Retry { wait_ms: RETRY_MS }
        } else {
            self.failed = READ_ATTEMPTS;
            EdidPollStep::GiveUp
        }
    }
}

/// Every block that is accepted names a pixel clock of at least 10 MHz, and a
/// block of full length with the header is refused for its pixel clock
/// exactly where that is below 10 MHz.
pub proof fn law_preferred_timing_clock_floor(edid: Seq<u8>)
    requires
        edid.len() >= EDID_SIZE,
        spec_is_edid_valid(edid),
    ensures
        match spec_parse_preferred_timing(edid) {
            Ok(t) => t.pixel_clock >= PIXEL_CLOCK_MIN_HZ && t == spec_preferred_timing(edid),
            Err(e) => e == EdidError::PixelClockTooLow && spec_preferred_timing(edid).pixel_clock
                < PIXEL_CLOCK_MIN_HZ,
        },
{
}

/// A block that does not start with the header gives no video mode.
pub proof fn law_invalid_block_gives_no_mode(edid: Seq<u8>)
    requires
        !spec_is_edid_valid(edid),
    ensures
        spec_parse_preferred_timing(edid).is_err(),
        spec_parse_edid_vmode(edid).is_err(),
        spec_get_edid_vmode(Some(edid)).is_none(),
{
}

} // verus!
