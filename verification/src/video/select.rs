//! Choice of the video mode, and the steps that bring a mode to the core.

use super::edid::{get_edid_vmode_, spec_get_edid_vmode};
use super::mode::{CustomVideoMode, CustomVideoModeParam, DefaultVideoMode, DEFAULT_VIDEO_MODES};
use crate::config::{MisterConfig, MisterConfigView};
use crate::text::{parse_decimal, spec_parse_decimal, str_eq};
use vstd::prelude::*;

verus! {

/// Horizontal front porch of a mode sent with direct video.
pub const DIRECT_HFP: u32 = 6;

/// Horizontal back porch of a mode sent with direct video.
pub const DIRECT_HBP: u32 = 3;

/// Vertical front porch of a mode sent with direct video.
pub const DIRECT_VFP: u32 = 2;

/// Vertical back porch of a mode sent with direct video.
pub const DIRECT_VBP: u32 = 2;

/// The video modes chosen for a configuration.
#[derive(Clone, Copy, Debug)]
pub struct VideoModeDef {
    /// The mode used where no other applies.
    pub vmode_def: Option<CustomVideoMode>,
    /// The mode for PAL cores.
    pub vmode_pal: Option<CustomVideoMode>,
    /// The mode for NTSC cores.
    pub vmode_ntsc: Option<CustomVideoMode>,
}

impl VideoModeDef {
    /// The choice of a single mode.
    pub open spec fn spec_only(vmode: CustomVideoMode) -> VideoModeDef {
        VideoModeDef { vmode_def: Some(vmode), vmode_pal: None, vmode_ntsc: None }
    }
}

impl Default for VideoModeDef {
    fn default() -> (r: VideoModeDef)
        ensures
            r == (VideoModeDef { vmode_def: None, vmode_pal: None, vmode_ntsc: None }),
    {
        VideoModeDef { vmode_def: None, vmode_pal: None, vmode_ntsc: None }
    }
}

/// The fixed mode that a configured mode string names: the mode of that
/// number, or the mode of that name; 640x480 at 60 Hz where the string is
/// unset, empty, `auto`, or names no mode.
pub open spec fn spec_named_mode(video_mode: Option<Seq<char>>) -> DefaultVideoMode {
    match video_mode {
        None => DefaultVideoMode::V640x480r60,
        Some(s) => if s == "auto"@ || s == ""@ {
            DefaultVideoMode::V640x480r60
        } else {
            match spec_parse_decimal(s) {
                Some(n) => if n < DEFAULT_VIDEO_MODES as u64 {
                    DefaultVideoMode::spec_from_repr(n as u8).unwrap()
                } else {
                    DefaultVideoMode::V640x480r60
                },
                None => match DefaultVideoMode::spec_from_str(s) {
                    Some(mode) => mode,
                    None => DefaultVideoMode::V640x480r60,
                },
            }
        },
    }
}

/// The descriptor of the fixed mode that a configured mode string names.
pub fn parse_custom_video_mode(video_mode: Option<&str>) -> (r: CustomVideoMode)
    ensures
        r == CustomVideoMode::spec_from_mode(
            spec_named_mode(
                match video_mode {
                    Some(s) => Some(s@),
                    None => None,
                },
            ),
        ),
{
    let mode = match video_mode {
        None => DefaultVideoMode::V640x480r60,
        Some(s) => {
            if str_eq(s, "auto") || str_eq(s, "") {
                DefaultVideoMode::V640x480r60
            } else {
                match parse_decimal(s) {
                    Some(n) => {
                        if n < DEFAULT_VIDEO_MODES as u64 {
                            match DefaultVideoMode::from_repr(n as u8) {
                                Some(mode) => mode,
                                None => DefaultVideoMode::V640x480r60,
                            }
                        } else {
                            DefaultVideoMode::V640x480r60
                        }
                    },
                    None => match DefaultVideoMode::from_str(s) {
                        Some(mode) => mode,
                        None => DefaultVideoMode::V640x480r60,
                    },
                }
            }
        },
    };
    CustomVideoMode::from(mode)
}

impl MisterConfigView {
    /// Whether the configuration names no video mode at all.
    pub open spec fn spec_no_video_conf(self) -> bool {
        self.video_conf.is_none() && self.video_conf_pal.is_none()
            && self.video_conf_ntsc.is_none()
    }

    /// Whether the choice of the video mode reads the display: not with
    /// direct video, and not where the configuration names a mode.
    pub open spec fn spec_needs_edid(self) -> bool {
        !self.spec_direct_video() && self.spec_no_video_conf()
    }

    /// The fixed mode used with direct video.
    pub open spec fn spec_direct_mode(self) -> DefaultVideoMode {
        if self.menu_pal == Some(true) {
            if self.forced_scandoubler == Some(true) {
                DefaultVideoMode::Pal31k
            } else {
                DefaultVideoMode::Pal15k
            }
        } else {
            if self.forced_scandoubler == Some(true) {
                DefaultVideoMode::Ntsc31K
            } else {
                DefaultVideoMode::Ntsc15K
            }
        }
    }
}

/// The video mode chosen for a configuration and for what reading the
/// display gave (`None` where it was not read or the read failed).
///
/// With direct video it is one of four fixed modes, by PAL or NTSC and by
/// the scandoubler. Else, where the configuration names no mode and the
/// display gives one, it is the mode of the display. Else it is the fixed
/// mode that the configured mode string names.
pub open spec fn spec_select_video_mode(
    options: MisterConfigView,
    edid: Option<Seq<u8>>,
) -> CustomVideoMode {
    if options.spec_direct_video() {
        CustomVideoMode::spec_from_mode(options.spec_direct_mode())
    } else if options.spec_no_video_conf() && spec_get_edid_vmode(edid).is_some() {
        spec_get_edid_vmode(edid).unwrap()
    } else {
        CustomVideoMode::spec_from_mode(spec_named_mode(options.video_conf))
    }
}

/// Whether the choice of the video mode reads the display.
pub fn needs_edid(options: &MisterConfig) -> (r: bool)
    ensures
        r == options@.spec_needs_edid(),
{
    !options.direct_video() && options.video_conf.is_none() && options.video_conf_pal.is_none()
        && options.video_conf_ntsc.is_none()
}

/// Chooses the video mode for a configuration. `edid` is the block read from
/// the display, or `None` where it was not read or the read failed.
pub fn select_video_mode(options: &MisterConfig, edid: Option<&[u8]>) -> (r: Result<
    VideoModeDef,
    String,
>)
    ensures
        r.is_ok(),
        r.unwrap() == VideoModeDef::spec_only(
            spec_select_video_mode(
                options@,
                match edid {
                    Some(bytes) => Some(bytes@),
                    None => None,
                },
            ),
        ),
{
    if options.direct_video() {
        let mode = match (options.menu_pal(), options.forced_scandoubler()) {
            (false, false) => DefaultVideoMode::Ntsc15K,
            (false, true) => DefaultVideoMode::Ntsc31K,
            (true, false) => DefaultVideoMode::Pal15k,
            (true, true) => DefaultVideoMode::Pal31k,
        };
        let mut vpar = CustomVideoMode::from(mode);
        vpar.set_pll(mode.f_pix());
        Ok(VideoModeDef { vmode_def: Some(vpar), vmode_pal: None, vmode_ntsc: None })
    } else {
        if options.video_conf.is_none() && options.video_conf_pal.is_none()
            && options.video_conf_ntsc.is_none() {
            let dvi = match options.dvi_mode_raw() {
                Some(dvi) => dvi,
                None => false,
            };
            if let Some(vmode) = get_edid_vmode_(dvi, edid) {
                return Ok(
                    VideoModeDef { vmode_def: Some(vmode), vmode_pal: None, vmode_ntsc: None },
                );
            }
        }
        let def = match &options.video_conf {
            Some(s) => parse_custom_video_mode(Some(s.as_str())),
            None => parse_custom_video_mode(None),
        };
        Ok(VideoModeDef { vmode_def: Some(def), vmode_pal: None, vmode_ntsc: None })
    }
}

/// One step of bringing a video mode to the core.
#[derive(Clone, Copy, Debug)]
pub enum SendStep {
    /// Switch the source-product-description packet of the HDMI transmitter.
    HdmiSetSpd {
        /// Whether the packet is sent.
        enabled: bool,
    },
    /// Switch one of the two spare packets of the HDMI transmitter.
    HdmiSetSpare {
        /// Which of the two packets.
        packet: bool,
        /// Whether the packet is sent.
        enabled: bool,
    },
    /// Transmit the descriptor over the command bus.
    Transmit {
        /// The descriptor.
        vmode: CustomVideoMode,
    },
}

impl CustomVideoMode {
    /// Whether the porches can be shrunk for direct video: none is below its
    /// fixed value, and the active sizes still fit once they have taken up
    /// what the porches lose.
    pub open spec fn spec_can_shrink_porches(self) -> bool {
        let p = self.param;
        &&& p.hfp >= DIRECT_HFP
        &&& p.hbp >= DIRECT_HBP
        &&& p.vfp >= DIRECT_VFP
        &&& p.vbp >= DIRECT_VBP
        &&& p.hact + (p.hfp - DIRECT_HFP) + (p.hbp - DIRECT_HBP) <= u32::MAX
        &&& p.vact + (p.vfp - DIRECT_VFP) + (p.vbp - DIRECT_VBP) <= u32::MAX
    }

    /// The descriptor with the porches shrunk to their fixed values and the
    /// active sizes grown by what the porches lost.
    pub open spec fn spec_shrink_porches(self) -> CustomVideoMode {
        let p = self.param;
        CustomVideoMode {
            param: CustomVideoModeParam {
                hfp: DIRECT_HFP,
                hbp: DIRECT_HBP,
                hact: (p.hact + (p.hfp - DIRECT_HFP) + (p.hbp - DIRECT_HBP)) as u32,
                vfp: DIRECT_VFP,
                vbp: DIRECT_VBP,
                vact: (p.vact + (p.vfp - DIRECT_VFP) + (p.vbp - DIRECT_VBP)) as u32,
                ..p
            },
            ..self
        }
    }

    /// The steps that bring the descriptor to the core.
    pub open spec fn spec_send_to_core(self, direct_video: bool) -> Seq<SendStep> {
        if direct_video {
            seq![SendStep::Transmit { vmode: self.spec_shrink_porches() }]
        } else {
            seq![
                SendStep::HdmiSetSpd { enabled: false },
                SendStep::HdmiSetSpare { packet: false, enabled: false },
                SendStep::Transmit { vmode: self },
            ]
        }
    }

    /// Whether the porches can be shrunk for direct video.
    pub fn can_shrink_porches(&self) -> (r: bool)
        ensures
            r == self.spec_can_shrink_porches(),
    {
        let p = &self.param;
        p.hfp >= DIRECT_HFP && p.hbp >= DIRECT_HBP && p.vfp >= DIRECT_VFP && p.vbp >= DIRECT_VBP
            && (p.hact as u64) + ((p.hfp - DIRECT_HFP) as u64) + ((p.hbp - DIRECT_HBP) as u64)
            <= u32::MAX as u64 && (p.vact as u64) + ((p.vfp - DIRECT_VFP) as u64) + ((p.vbp
            - DIRECT_VBP) as u64) <= u32::MAX as u64
    }

    /// Lists the steps that bring the descriptor to the core, in order.
    ///
    /// With direct video the porches are shrunk to fixed values and the
    /// active sizes grow by what the porches lose, so that a line and a frame
    /// stay as long as they were. Without it, two packets of the HDMI
    /// transmitter are switched off first. The last step always transmits the
    /// descriptor.
    pub fn send_to_core(&self, direct_video: bool, is_menu: bool) -> (steps: Vec<SendStep>)
        requires
            direct_video ==> self.spec_can_shrink_porches(),
        ensures
            steps@ == self.spec_send_to_core(direct_video),
    {
        let mut steps: Vec<SendStep> = Vec::new();
        if direct_video {
            let mut fixed = *self;
            fixed.param.hfp = DIRECT_HFP;
            fixed.param.hbp = DIRECT_HBP;
            fixed.param.hact = self.param.hact + (self.param.hfp - DIRECT_HFP) + (self.param.hbp
                - DIRECT_HBP);
            fixed.param.vfp = DIRECT_VFP;
            fixed.param.vbp = DIRECT_VBP;
            fixed.param.vact = self.param.vact + (self.param.vfp - DIRECT_VFP) + (self.param.vbp
                - DIRECT_VBP);
            steps.push(SendStep::Transmit { vmode: fixed });
        } else {
            steps.push(SendStep::HdmiSetSpd { enabled: false });
            steps.push(SendStep::HdmiSetSpare { packet: false, enabled: false });
            steps.push(SendStep::Transmit { vmode: *self });
        }
        assert(steps@ =~= self.spec_send_to_core(direct_video));
        steps
    }
}

/// The source-product-description bit of the packet register of the HDMI
/// transmitter.
pub const HDMI_SPD_BIT: u8 = 0x40;

/// The packet register with the source-product-description packet switched.
pub fn hdmi_config_set_spd(packet_val: u8, val: bool) -> (r: u8)
    ensures
        r == (if val {
            packet_val | HDMI_SPD_BIT
        } else {
            packet_val & !HDMI_SPD_BIT
        }),
{
    if val {
        packet_val | HDMI_SPD_BIT
    } else {
        packet_val & !HDMI_SPD_BIT
    }
}

/// The bit of a spare packet in the packet register of the HDMI transmitter.
pub open spec fn spec_spare_mask(packet: bool) -> u8 {
    if packet {
        2
    } else {
        1
    }
}

/// The packet register with one of the two spare packets switched.
pub fn hdmi_config_set_spare(packet_val: u8, packet: bool, enabled: bool) -> (r: u8)
    ensures
        r == (if enabled {
            packet_val | spec_spare_mask(packet)
        } else {
            packet_val & !spec_spare_mask(packet)
        }),
{
    let mask: u8 = if packet {
        2
    } else {
        1
    };
    if enabled {
        packet_val | mask
    } else {
        packet_val & !mask
    }
}

/// With direct video the display is never read: the chosen mode is the same
/// whatever a read would have given.
pub proof fn law_direct_video_ignores_edid(
    options: MisterConfigView,
    a: Option<Seq<u8>>,
    b: Option<Seq<u8>>,
)
    requires
        options.spec_direct_video(),
    ensures
        !options.spec_needs_edid(),
        spec_select_video_mode(options, a) == spec_select_video_mode(options, b),
{
}

/// Where the display cannot be read and no mode is configured, the chosen
/// mode is 640x480 at 60 Hz.
pub proof fn law_unread_display_gives_default(options: MisterConfigView)
    requires
        !options.spec_direct_video(),
        options.video_conf.is_none(),
    ensures
        spec_select_video_mode(options, None) == CustomVideoMode::spec_from_mode(
            DefaultVideoMode::V640x480r60,
        ),
{
}

/// Shrinking the porches keeps the length of a line and of a frame, and with
/// them the frame rate.
pub proof fn law_shrink_porches_keeps_totals(vmode: CustomVideoMode)
    requires
        vmode.spec_can_shrink_porches(),
    ensures
        vmode.spec_shrink_porches().param.spec_h_total() == vmode.param.spec_h_total(),
        vmode.spec_shrink_porches().param.spec_v_total() == vmode.param.spec_v_total(),
        vmode.spec_shrink_porches().spec_frame_rate() == vmode.spec_frame_rate(),
{
}

/// Whatever the mode, the last step of bringing it to the core transmits a
/// descriptor, and no step before it does.
pub proof fn law_send_ends_with_transmit(vmode: CustomVideoMode, direct_video: bool)
    ensures
        vmode.spec_send_to_core(direct_video).len() > 0,
        vmode.spec_send_to_core(direct_video).last() is Transmit,
        forall|i: int|
            0 <= i < vmode.spec_send_to_core(direct_video).len() - 1 ==> !(
            #[trigger] vmode.spec_send_to_core(direct_video)[i] is Transmit),
{
}

} // verus!
