//! The configuration record that the firmware reads, and how a record is
//! merged into another.
//!
//! Nearly every field is optional: an override section sets only what it
//! names, and merging it into a record overwrites only those fields. Lists
//! are appended.

pub mod fb_size;
pub mod ini;
pub mod json;
pub mod load;
pub mod overrides;
pub mod parse;
pub mod resolution;
pub mod validate;
pub mod vsync_adjust;

use self::fb_size::FramebufferSizeConfig;
use self::vsync_adjust::VsyncAdjustConfig;
use vstd::prelude::*;

verus! {

/// The merge of an optional field: the right value where there is one, else
/// the left.
pub open spec fn spec_overwrite_some<T>(left: Option<T>, right: Option<T>) -> Option<T> {
    if right.is_some() {
        right
    } else {
        left
    }
}

/// An optional field that gives way to another: unset where the other is
/// set, else as it is.
pub open spec fn spec_unless_set<T>(field: Option<T>, set: Option<T>) -> Option<T> {
    if set.is_some() {
        None
    } else {
        field
    }
}

/// A list with its item where the item is not empty, else the empty list.
pub open spec fn spec_unless_empty<T>(item: Seq<T>) -> Seq<Seq<T>> {
    if item.len() > 0 {
        seq![item]
    } else {
        seq![]
    }
}

/// Overwrites `left` with `right` where `right` holds a value.
pub fn overwrite_some<T>(left: &mut Option<T>, right: Option<T>)
    ensures
        *final(left) == spec_overwrite_some(*old(left), right),
{
    if right.is_some() {
        *left = right;
    }
}

/// Sets `field` to `value` where it holds none.
pub fn get_or_insert<T>(field: &mut Option<T>, value: T)
    ensures
        *final(field) == spec_overwrite_some(Some(value), *old(field)),
{
    if field.is_none() {
        *field = Some(value);
    }
}

/// Unsets `field` where `set` holds a value.
pub fn unset_where_set<T>(field: &mut Option<T>, set: &Option<T>)
    ensures
        *final(field) == spec_unless_set(*old(field), *set),
{
    if set.is_some() {
        *field = None;
    }
}

/// Appends `src` to `dst`.
pub fn append_deep<T: DeepView>(dst: &mut Vec<T>, src: Vec<T>)
    ensures
        final(dst).deep_view() == old(dst).deep_view() + src.deep_view(),
        final(dst)@ == old(dst)@ + src@,
{
    let mut src = src;
    let ghost s0 = src;
    dst.append(&mut src);
    assert(dst.deep_view() =~= old(dst).deep_view() + s0.deep_view());
}

/// A copy of an optional string.
pub fn clone_opt_string(s: &Option<String>) -> (r: Option<String>)
    ensures
        r.deep_view() == s.deep_view(),
{
    match s {
        Some(x) => Some(x.clone()),
        None => None,
    }
}

/// A copy of a list of strings.
pub fn clone_strings(v: &Vec<String>) -> (r: Vec<String>)
    ensures
        r.deep_view() == v.deep_view(),
{
    let mut r: Vec<String> = Vec::new();
    let mut i: usize = 0;
    while i < v.len()
        invariant
            i <= v.len(),
            r@.len() == i,
            forall|j: int| 0 <= j < i ==> r@[j]@ == v@[j]@,
        decreases v.len() - i,
    {
        r.push(v[i].clone());
        i = i + 1;
    }
    assert(r.deep_view() =~= v.deep_view());
    r
}

/// A copy of a list of lists of strings.
pub fn clone_string_lists(v: &Vec<Vec<String>>) -> (r: Vec<Vec<String>>)
    ensures
        r.deep_view() == v.deep_view(),
{
    let mut r: Vec<Vec<String>> = Vec::new();
    let mut i: usize = 0;
    while i < v.len()
        invariant
            i <= v.len(),
            r@.len() == i,
            forall|j: int| 0 <= j < i ==> r@[j].deep_view() == v@[j].deep_view(),
        decreases v.len() - i,
    {
        r.push(clone_strings(&v[i]));
        i = i + 1;
    }
    assert(r.deep_view() =~= v.deep_view());
    r
}

/// One section of the configuration.
#[derive(Debug)]
pub struct MisterConfig {
    /// The core that is started at boot, as the word of the file.
    pub bootcore: Option<String>,
    /// The mode of the VGA output, as the word of the file.
    pub vga_mode: Option<String>,
    /// The mode of NTSC, as the word of the file.
    pub ntsc_mode: Option<String>,
    /// The keys that reset the core, as the word of the file.
    pub reset_combo: Option<String>,
    /// The range of the HDMI output, as the word of the file.
    pub hdmi_limited: Option<String>,
    /// Throttle of the mouse, 0 to 100.
    pub mouse_throttle: Option<u8>,
    /// The mode of a Keyrah interface.
    pub keyrah_mode: Option<u32>,
    /// Custom aspect ratios, each as the word of the file.
    pub custom_aspect_ratio: Vec<String>,
    /// The first custom aspect ratio of older files, as the word of the file.
    pub custom_aspect_ratio_1: Option<String>,
    /// The second custom aspect ratio of older files, as the word of the file.
    pub custom_aspect_ratio_2: Option<String>,
    /// Whether the scandoubler always runs on the VGA output.
    pub forced_scandoubler: Option<bool>,
    /// Whether the menu key maps to the right GUI key.
    pub key_menu_as_rgui: Option<bool>,
    /// Whether the HSync signal of the VGA output carries composite sync.
    pub composite_sync: Option<bool>,
    /// Whether the VGA output is fed by the scaler.
    pub vga_scaler: Option<bool>,
    /// Whether sync on green is on.
    pub vga_sog: Option<bool>,
    /// Whether HDMI audio runs at 96 kHz.
    pub hdmi_audio_96k: Option<bool>,
    /// Whether the HDMI output runs in DVI mode.
    pub dvi_mode: Option<bool>,
    /// Whether the core's own video timing goes out over HDMI.
    pub direct_video: Option<bool>,
    /// Seconds for which video information is shown, 1 to 10.
    pub video_info: Option<u64>,
    /// Seconds for which a controller's button map is shown, 0 to 10.
    pub controller_info: Option<u64>,
    /// How the HDMI refresh rate follows that of the core.
    pub vsync_adjust: Option<VsyncAdjustConfig>,
    /// Whether the keyboard does not emulate a mouse.
    pub kbd_nomouse: Option<bool>,
    /// Whether the boot screen is shown.
    pub bootscreen: Option<bool>,
    /// How the picture is scaled, as the word of the file.
    pub vscale_mode: Option<String>,
    /// Vertical border for displays that cut the picture, 0 to 399.
    pub vscale_border: Option<u16>,
    /// Whether date codes are hidden in core names.
    pub rbf_hide_datecode: Option<bool>,
    /// Whether the menu core runs in PAL.
    pub menu_pal: Option<bool>,
    /// Seconds before the boot core starts, at most 30.
    pub bootcore_timeout: Option<u64>,
    /// Size of the framebuffer.
    pub fb_size: Option<FramebufferSizeConfig>,
    /// Whether the framebuffer terminal is on.
    pub fb_terminal: Option<bool>,
    /// How the overlay is rotated, as the word of the file.
    pub osd_rotate: Option<String>,
    /// Seconds after which the overlay disappears in the menu core, 5 to 3600.
    pub osd_timeout: Option<u64>,
    /// Whether joypads are mapped by position instead of by name.
    pub gamepad_defaults: Option<bool>,
    /// Whether recently loaded files are recorded.
    pub recents: Option<bool>,
    /// Vendor id of a JAMMA interface.
    pub jamma_vid: Option<u16>,
    /// Product id of a JAMMA interface.
    pub jamma_pid: Option<u16>,
    /// Vendor id of devices whose inputs are not merged.
    pub no_merge_vid: Option<u16>,
    /// Product id of devices whose inputs are not merged.
    pub no_merge_pid: Option<u16>,
    /// Vendor and product ids of devices whose inputs are not merged.
    pub no_merge_vidpid: Vec<u32>,
    /// Vendor id of the mouse used as a spinner.
    pub spinner_vid: Option<u16>,
    /// Product id of the mouse used as a spinner.
    pub spinner_pid: Option<u16>,
    /// Throttle of the spinner, -10000 to 10000.
    pub spinner_throttle: Option<i32>,
    /// Axis of the spinner.
    pub spinner_axis: Option<u8>,
    /// Whether sniper mode is on.
    pub sniper_mode: Option<bool>,
    /// Whether long names scroll in the file browser.
    pub browse_expand: Option<bool>,
    /// Whether the logo is shown in the menu core.
    pub logo: Option<bool>,
    /// Whether the file browser logs the entry under the cursor.
    pub log_file_entry: Option<bool>,
    /// Default mode of the shadow mask.
    pub shmask_mode_default: Option<u8>,
    /// Seconds of idleness after which a Bluetooth device is disconnected.
    pub bt_auto_disconnect: Option<u64>,
    /// Whether Bluetooth is reset before pairing.
    pub bt_reset_before_pair: Option<bool>,
    /// The configured video mode.
    pub video_conf: Option<String>,
    /// The configured video mode for PAL cores.
    pub video_conf_pal: Option<String>,
    /// The configured video mode for NTSC cores.
    pub video_conf_ntsc: Option<String>,
    /// The font of the overlay.
    pub font: Option<String>,
    /// The shared folder.
    pub shared_folder: Option<String>,
    /// Mounts to wait for at start.
    pub waitmount: Option<String>,
    /// Default audio filter.
    pub afilter_default: Option<String>,
    /// Default video filter.
    pub vfilter_default: Option<String>,
    /// Default vertical video filter.
    pub vfilter_vertical_default: Option<String>,
    /// Default scanlines filter.
    pub vfilter_scanlines_default: Option<String>,
    /// Default shadow mask.
    pub shmask_default: Option<String>,
    /// Default preset.
    pub preset_default: Option<String>,
    /// Controllers of the players, one list each.
    pub player_controller: Vec<Vec<String>>,
    /// Controllers of player 1.
    pub player_1_controller: Vec<String>,
    /// Controllers of player 2.
    pub player_2_controller: Vec<String>,
    /// Controllers of player 3.
    pub player_3_controller: Vec<String>,
    /// Controllers of player 4.
    pub player_4_controller: Vec<String>,
    /// Controllers of player 5.
    pub player_5_controller: Vec<String>,
    /// Controllers of player 6.
    pub player_6_controller: Vec<String>,
    /// Whether rumble is on.
    pub rumble: Option<bool>,
    /// Force of a steering wheel, 0 to 100.
    pub wheel_force: Option<u8>,
    /// Range of a steering wheel, 0 to 1000.
    pub wheel_range: Option<u16>,
    /// Whether the HDMI output asks the display for its game mode.
    pub hdmi_game_mode: Option<bool>,
    /// The mode of variable refresh, as the word of the file.
    pub vrr_mode: Option<String>,
    /// Lowest frame rate with variable refresh.
    pub vrr_min_framerate: Option<u8>,
    /// Highest frame rate with variable refresh.
    pub vrr_max_framerate: Option<u8>,
    /// Base frame rate of VESA variable refresh.
    pub vrr_vesa_framerate: Option<u8>,
    /// Seconds after which the menu core blanks the picture, at most 3600.
    pub video_off: Option<u64>,
    /// Whether autofire is off.
    pub disable_autofire: Option<bool>,
    /// Brightness, 0 to 100.
    pub video_brightness: Option<u8>,
    /// Contrast, 0 to 100.
    pub video_contrast: Option<u8>,
    /// Saturation, 0 to 100.
    pub video_saturation: Option<u8>,
    /// Hue in degrees, 0 to 360.
    pub video_hue: Option<u16>,
    /// Gains and offsets of the colours, as the word of the file.
    pub video_gain_offset: Option<String>,
    /// The mode of HDR, as the word of the file.
    pub hdr: Option<String>,
    /// Peak luminance for HDR, 100 to 10000.
    pub hdr_max_nits: Option<u16>,
    /// Average luminance for HDR, 100 to 10000.
    pub hdr_avg_nits: Option<u16>,
    /// Controllers that keep a mapping of their own.
    pub controller_unique_mapping: Vec<u32>,
}

/// What a section of the configuration holds.
#[verifier::ext_equal]
pub struct MisterConfigView {
    /// The core that is started at boot, as the word of the file.
    pub bootcore: Option<Seq<char>>,
    /// The mode of the VGA output, as the word of the file.
    pub vga_mode: Option<Seq<char>>,
    /// The mode of NTSC, as the word of the file.
    pub ntsc_mode: Option<Seq<char>>,
    /// The keys that reset the core, as the word of the file.
    pub reset_combo: Option<Seq<char>>,
    /// The range of the HDMI output, as the word of the file.
    pub hdmi_limited: Option<Seq<char>>,
    /// Throttle of the mouse, 0 to 100.
    pub mouse_throttle: Option<u8>,
    /// The mode of a Keyrah interface.
    pub keyrah_mode: Option<u32>,
    /// Custom aspect ratios, each as the word of the file.
    pub custom_aspect_ratio: Seq<Seq<char>>,
    /// The first custom aspect ratio of older files, as the word of the file.
    pub custom_aspect_ratio_1: Option<Seq<char>>,
    /// The second custom aspect ratio of older files, as the word of the file.
    pub custom_aspect_ratio_2: Option<Seq<char>>,
    /// Whether the scandoubler always runs on the VGA output.
    pub forced_scandoubler: Option<bool>,
    /// Whether the menu key maps to the right GUI key.
    pub key_menu_as_rgui: Option<bool>,
    /// Whether the HSync signal of the VGA output carries composite sync.
    pub composite_sync: Option<bool>,
    /// Whether the VGA output is fed by the scaler.
    pub vga_scaler: Option<bool>,
    /// Whether sync on green is on.
    pub vga_sog: Option<bool>,
    /// Whether HDMI audio runs at 96 kHz.
    pub hdmi_audio_96k: Option<bool>,
    /// Whether the HDMI output runs in DVI mode.
    pub dvi_mode: Option<bool>,
    /// Whether the core's own video timing goes out over HDMI.
    pub direct_video: Option<bool>,
    /// Seconds for which video information is shown, 1 to 10.
    pub video_info: Option<u64>,
    /// Seconds for which a controller's button map is shown, 0 to 10.
    pub controller_info: Option<u64>,
    /// How the HDMI refresh rate follows that of the core.
    pub vsync_adjust: Option<VsyncAdjustConfig>,
    /// Whether the keyboard does not emulate a mouse.
    pub kbd_nomouse: Option<bool>,
    /// Whether the boot screen is shown.
    pub bootscreen: Option<bool>,
    /// How the picture is scaled, as the word of the file.
    pub vscale_mode: Option<Seq<char>>,
    /// Vertical border for displays that cut the picture, 0 to 399.
    pub vscale_border: Option<u16>,
    /// Whether date codes are hidden in core names.
    pub rbf_hide_datecode: Option<bool>,
    /// Whether the menu core runs in PAL.
    pub menu_pal: Option<bool>,
    /// Seconds before the boot core starts, at most 30.
    pub bootcore_timeout: Option<u64>,
    /// Size of the framebuffer.
    pub fb_size: Option<FramebufferSizeConfig>,
    /// Whether the framebuffer terminal is on.
    pub fb_terminal: Option<bool>,
    /// How the overlay is rotated, as the word of the file.
    pub osd_rotate: Option<Seq<char>>,
    /// Seconds after which the overlay disappears in the menu core, 5 to 3600.
    pub osd_timeout: Option<u64>,
    /// Whether joypads are mapped by position instead of by name.
    pub gamepad_defaults: Option<bool>,
    /// Whether recently loaded files are recorded.
    pub recents: Option<bool>,
    /// Vendor id of a JAMMA interface.
    pub jamma_vid: Option<u16>,
    /// Product id of a JAMMA interface.
    pub jamma_pid: Option<u16>,
    /// Vendor id of devices whose inputs are not merged.
    pub no_merge_vid: Option<u16>,
    /// Product id of devices whose inputs are not merged.
    pub no_merge_pid: Option<u16>,
    /// Vendor and product ids of devices whose inputs are not merged.
    pub no_merge_vidpid: Seq<u32>,
    /// Vendor id of the mouse used as a spinner.
    pub spinner_vid: Option<u16>,
    /// Product id of the mouse used as a spinner.
    pub spinner_pid: Option<u16>,
    /// Throttle of the spinner, -10000 to 10000.
    pub spinner_throttle: Option<i32>,
    /// Axis of the spinner.
    pub spinner_axis: Option<u8>,
    /// Whether sniper mode is on.
    pub sniper_mode: Option<bool>,
    /// Whether long names scroll in the file browser.
    pub browse_expand: Option<bool>,
    /// Whether the logo is shown in the menu core.
    pub logo: Option<bool>,
    /// Whether the file browser logs the entry under the cursor.
    pub log_file_entry: Option<bool>,
    /// Default mode of the shadow mask.
    pub shmask_mode_default: Option<u8>,
    /// Seconds of idleness after which a Bluetooth device is disconnected.
    pub bt_auto_disconnect: Option<u64>,
    /// Whether Bluetooth is reset before pairing.
    pub bt_reset_before_pair: Option<bool>,
    /// The configured video mode.
    pub video_conf: Option<Seq<char>>,
    /// The configured video mode for PAL cores.
    pub video_conf_pal: Option<Seq<char>>,
    /// The configured video mode for NTSC cores.
    pub video_conf_ntsc: Option<Seq<char>>,
    /// The font of the overlay.
    pub font: Option<Seq<char>>,
    /// The shared folder.
    pub shared_folder: Option<Seq<char>>,
    /// Mounts to wait for at start.
    pub waitmount: Option<Seq<char>>,
    /// Default audio filter.
    pub afilter_default: Option<Seq<char>>,
    /// Default video filter.
    pub vfilter_default: Option<Seq<char>>,
    /// Default vertical video filter.
    pub vfilter_vertical_default: Option<Seq<char>>,
    /// Default scanlines filter.
    pub vfilter_scanlines_default: Option<Seq<char>>,
    /// Default shadow mask.
    pub shmask_default: Option<Seq<char>>,
    /// Default preset.
    pub preset_default: Option<Seq<char>>,
    /// Controllers of the players, one list each.
    pub player_controller: Seq<Seq<Seq<char>>>,
    /// Controllers of player 1.
    pub player_1_controller: Seq<Seq<char>>,
    /// Controllers of player 2.
    pub player_2_controller: Seq<Seq<char>>,
    /// Controllers of player 3.
    pub player_3_controller: Seq<Seq<char>>,
    /// Controllers of player 4.
    pub player_4_controller: Seq<Seq<char>>,
    /// Controllers of player 5.
    pub player_5_controller: Seq<Seq<char>>,
    /// Controllers of player 6.
    pub player_6_controller: Seq<Seq<char>>,
    /// Whether rumble is on.
    pub rumble: Option<bool>,
    /// Force of a steering wheel, 0 to 100.
    pub wheel_force: Option<u8>,
    /// Range of a steering wheel, 0 to 1000.
    pub wheel_range: Option<u16>,
    /// Whether the HDMI output asks the display for its game mode.
    pub hdmi_game_mode: Option<bool>,
    /// The mode of variable refresh, as the word of the file.
    pub vrr_mode: Option<Seq<char>>,
    /// Lowest frame rate with variable refresh.
    pub vrr_min_framerate: Option<u8>,
    /// Highest frame rate with variable refresh.
    pub vrr_max_framerate: Option<u8>,
    /// Base frame rate of VESA variable refresh.
    pub vrr_vesa_framerate: Option<u8>,
    /// Seconds after which the menu core blanks the picture, at most 3600.
    pub video_off: Option<u64>,
    /// Whether autofire is off.
    pub disable_autofire: Option<bool>,
    /// Brightness, 0 to 100.
    pub video_brightness: Option<u8>,
    /// Contrast, 0 to 100.
    pub video_contrast: Option<u8>,
    /// Saturation, 0 to 100.
    pub video_saturation: Option<u8>,
    /// Hue in degrees, 0 to 360.
    pub video_hue: Option<u16>,
    /// Gains and offsets of the colours, as the word of the file.
    pub video_gain_offset: Option<Seq<char>>,
    /// The mode of HDR, as the word of the file.
    pub hdr: Option<Seq<char>>,
    /// Peak luminance for HDR, 100 to 10000.
    pub hdr_max_nits: Option<u16>,
    /// Average luminance for HDR, 100 to 10000.
    pub hdr_avg_nits: Option<u16>,
    /// Controllers that keep a mapping of their own.
    pub controller_unique_mapping: Seq<u32>,
}

impl View for MisterConfig {
    type V = MisterConfigView;

    open spec fn view(&self) -> MisterConfigView {
        MisterConfigView {
            bootcore: self.bootcore.deep_view(),
            vga_mode: self.vga_mode.deep_view(),
            ntsc_mode: self.ntsc_mode.deep_view(),
            reset_combo: self.reset_combo.deep_view(),
            hdmi_limited: self.hdmi_limited.deep_view(),
            mouse_throttle: self.mouse_throttle,
            keyrah_mode: self.keyrah_mode,
            custom_aspect_ratio: self.custom_aspect_ratio.deep_view(),
            custom_aspect_ratio_1: self.custom_aspect_ratio_1.deep_view(),
            custom_aspect_ratio_2: self.custom_aspect_ratio_2.deep_view(),
            forced_scandoubler: self.forced_scandoubler,
            key_menu_as_rgui: self.key_menu_as_rgui,
            composite_sync: self.composite_sync,
            vga_scaler: self.vga_scaler,
            vga_sog: self.vga_sog,
            hdmi_audio_96k: self.hdmi_audio_96k,
            dvi_mode: self.dvi_mode,
            direct_video: self.direct_video,
            video_info: self.video_info,
            controller_info: self.controller_info,
            vsync_adjust: self.vsync_adjust,
            kbd_nomouse: self.kbd_nomouse,
            bootscreen: self.bootscreen,
            vscale_mode: self.vscale_mode.deep_view(),
            vscale_border: self.vscale_border,
            rbf_hide_datecode: self.rbf_hide_datecode,
            menu_pal: self.menu_pal,
            bootcore_timeout: self.bootcore_timeout,
            fb_size: self.fb_size,
            fb_terminal: self.fb_terminal,
            osd_rotate: self.osd_rotate.deep_view(),
            osd_timeout: self.osd_timeout,
            gamepad_defaults: self.gamepad_defaults,
            recents: self.recents,
            jamma_vid: self.jamma_vid,
            jamma_pid: self.jamma_pid,
            no_merge_vid: self.no_merge_vid,
            no_merge_pid: self.no_merge_pid,
            no_merge_vidpid: self.no_merge_vidpid@,
            spinner_vid: self.spinner_vid,
            spinner_pid: self.spinner_pid,
            spinner_throttle: self.spinner_throttle,
            spinner_axis: self.spinner_axis,
            sniper_mode: self.sniper_mode,
            browse_expand: self.browse_expand,
            logo: self.logo,
            log_file_entry: self.log_file_entry,
            shmask_mode_default: self.shmask_mode_default,
            bt_auto_disconnect: self.bt_auto_disconnect,
            bt_reset_before_pair: self.bt_reset_before_pair,
            video_conf: self.video_conf.deep_view(),
            video_conf_pal: self.video_conf_pal.deep_view(),
            video_conf_ntsc: self.video_conf_ntsc.deep_view(),
            font: self.font.deep_view(),
            shared_folder: self.shared_folder.deep_view(),
            waitmount: self.waitmount.deep_view(),
            afilter_default: self.afilter_default.deep_view(),
            vfilter_default: self.vfilter_default.deep_view(),
            vfilter_vertical_default: self.vfilter_vertical_default.deep_view(),
            vfilter_scanlines_default: self.vfilter_scanlines_default.deep_view(),
            shmask_default: self.shmask_default.deep_view(),
            preset_default: self.preset_default.deep_view(),
            player_controller: self.player_controller.deep_view(),
            player_1_controller: self.player_1_controller.deep_view(),
            player_2_controller: self.player_2_controller.deep_view(),
            player_3_controller: self.player_3_controller.deep_view(),
            player_4_controller: self.player_4_controller.deep_view(),
            player_5_controller: self.player_5_controller.deep_view(),
            player_6_controller: self.player_6_controller.deep_view(),
            rumble: self.rumble,
            wheel_force: self.wheel_force,
            wheel_range: self.wheel_range,
            hdmi_game_mode: self.hdmi_game_mode,
            vrr_mode: self.vrr_mode.deep_view(),
            vrr_min_framerate: self.vrr_min_framerate,
            vrr_max_framerate: self.vrr_max_framerate,
            vrr_vesa_framerate: self.vrr_vesa_framerate,
            video_off: self.video_off,
            disable_autofire: self.disable_autofire,
            video_brightness: self.video_brightness,
            video_contrast: self.video_contrast,
            video_saturation: self.video_saturation,
            video_hue: self.video_hue,
            video_gain_offset: self.video_gain_offset.deep_view(),
            hdr: self.hdr.deep_view(),
            hdr_max_nits: self.hdr_max_nits,
            hdr_avg_nits: self.hdr_avg_nits,
            controller_unique_mapping: self.controller_unique_mapping@,
        }
    }
}

impl MisterConfigView {
    /// The section that sets nothing.
    pub open spec fn spec_empty() -> MisterConfigView {
        MisterConfigView {
            bootcore: None,
            vga_mode: None,
            ntsc_mode: None,
            reset_combo: None,
            hdmi_limited: None,
            mouse_throttle: None,
            keyrah_mode: None,
            custom_aspect_ratio: Seq::empty(),
            custom_aspect_ratio_1: None,
            custom_aspect_ratio_2: None,
            forced_scandoubler: None,
            key_menu_as_rgui: None,
            composite_sync: None,
            vga_scaler: None,
            vga_sog: None,
            hdmi_audio_96k: None,
            dvi_mode: None,
            direct_video: None,
            video_info: None,
            controller_info: None,
            vsync_adjust: None,
            kbd_nomouse: None,
            bootscreen: None,
            vscale_mode: None,
            vscale_border: None,
            rbf_hide_datecode: None,
            menu_pal: None,
            bootcore_timeout: None,
            fb_size: None,
            fb_terminal: None,
            osd_rotate: None,
            osd_timeout: None,
            gamepad_defaults: None,
            recents: None,
            jamma_vid: None,
            jamma_pid: None,
            no_merge_vid: None,
            no_merge_pid: None,
            no_merge_vidpid: Seq::empty(),
            spinner_vid: None,
            spinner_pid: None,
            spinner_throttle: None,
            spinner_axis: None,
            sniper_mode: None,
            browse_expand: None,
            logo: None,
            log_file_entry: None,
            shmask_mode_default: None,
            bt_auto_disconnect: None,
            bt_reset_before_pair: None,
            video_conf: None,
            video_conf_pal: None,
            video_conf_ntsc: None,
            font: None,
            shared_folder: None,
            waitmount: None,
            afilter_default: None,
            vfilter_default: None,
            vfilter_vertical_default: None,
            vfilter_scanlines_default: None,
            shmask_default: None,
            preset_default: None,
            player_controller: Seq::empty(),
            player_1_controller: Seq::empty(),
            player_2_controller: Seq::empty(),
            player_3_controller: Seq::empty(),
            player_4_controller: Seq::empty(),
            player_5_controller: Seq::empty(),
            player_6_controller: Seq::empty(),
            rumble: None,
            wheel_force: None,
            wheel_range: None,
            hdmi_game_mode: None,
            vrr_mode: None,
            vrr_min_framerate: None,
            vrr_max_framerate: None,
            vrr_vesa_framerate: None,
            video_off: None,
            disable_autofire: None,
            video_brightness: None,
            video_contrast: None,
            video_saturation: None,
            video_hue: None,
            video_gain_offset: None,
            hdr: None,
            hdr_max_nits: None,
            hdr_avg_nits: None,
            controller_unique_mapping: Seq::empty(),
        }
    }

    /// The section after `other` has been merged into it: a field that
    /// `other` sets is overwritten, a field that it leaves unset is kept, and
    /// a list has that of `other` appended.
    pub open spec fn spec_merge(self, other: MisterConfigView) -> MisterConfigView {
        MisterConfigView {
            bootcore: spec_overwrite_some(self.bootcore, other.bootcore),
            vga_mode: spec_overwrite_some(self.vga_mode, other.vga_mode),
            ntsc_mode: spec_overwrite_some(self.ntsc_mode, other.ntsc_mode),
            reset_combo: spec_overwrite_some(self.reset_combo, other.reset_combo),
            hdmi_limited: spec_overwrite_some(self.hdmi_limited, other.hdmi_limited),
            mouse_throttle: spec_overwrite_some(self.mouse_throttle, other.mouse_throttle),
            keyrah_mode: spec_overwrite_some(self.keyrah_mode, other.keyrah_mode),
            custom_aspect_ratio: self.custom_aspect_ratio + other.custom_aspect_ratio,
            custom_aspect_ratio_1: spec_overwrite_some(self.custom_aspect_ratio_1, other.custom_aspect_ratio_1),
            custom_aspect_ratio_2: spec_overwrite_some(self.custom_aspect_ratio_2, other.custom_aspect_ratio_2),
            forced_scandoubler: spec_overwrite_some(self.forced_scandoubler, other.forced_scandoubler),
            key_menu_as_rgui: spec_overwrite_some(self.key_menu_as_rgui, other.key_menu_as_rgui),
            composite_sync: spec_overwrite_some(self.composite_sync, other.composite_sync),
            vga_scaler: spec_overwrite_some(self.vga_scaler, other.vga_scaler),
            vga_sog: spec_overwrite_some(self.vga_sog, other.vga_sog),
            hdmi_audio_96k: spec_overwrite_some(self.hdmi_audio_96k, other.hdmi_audio_96k),
            dvi_mode: spec_overwrite_some(self.dvi_mode, other.dvi_mode),
            direct_video: spec_overwrite_some(self.direct_video, other.direct_video),
            video_info: spec_overwrite_some(self.video_info, other.video_info),
            controller_info: spec_overwrite_some(self.controller_info, other.controller_info),
            vsync_adjust: spec_overwrite_some(self.vsync_adjust, other.vsync_adjust),
            kbd_nomouse: spec_overwrite_some(self.kbd_nomouse, other.kbd_nomouse),
            bootscreen: spec_overwrite_some(self.bootscreen, other.bootscreen),
            vscale_mode: spec_overwrite_some(self.vscale_mode, other.vscale_mode),
            vscale_border: spec_overwrite_some(self.vscale_border, other.vscale_border),
            rbf_hide_datecode: spec_overwrite_some(self.rbf_hide_datecode, other.rbf_hide_datecode),
            menu_pal: spec_overwrite_some(self.menu_pal, other.menu_pal),
            bootcore_timeout: spec_overwrite_some(self.bootcore_timeout, other.bootcore_timeout),
            fb_size: spec_overwrite_some(self.fb_size, other.fb_size),
            fb_terminal: spec_overwrite_some(self.fb_terminal, other.fb_terminal),
            osd_rotate: spec_overwrite_some(self.osd_rotate, other.osd_rotate),
            osd_timeout: spec_overwrite_some(self.osd_timeout, other.osd_timeout),
            gamepad_defaults: spec_overwrite_some(self.gamepad_defaults, other.gamepad_defaults),
            recents: spec_overwrite_some(self.recents, other.recents),
            jamma_vid: spec_overwrite_some(self.jamma_vid, other.jamma_vid),
            jamma_pid: spec_overwrite_some(self.jamma_pid, other.jamma_pid),
            no_merge_vid: spec_overwrite_some(self.no_merge_vid, other.no_merge_vid),
            no_merge_pid: spec_overwrite_some(self.no_merge_pid, other.no_merge_pid),
            no_merge_vidpid: self.no_merge_vidpid + other.no_merge_vidpid,
            spinner_vid: spec_overwrite_some(self.spinner_vid, other.spinner_vid),
            spinner_pid: spec_overwrite_some(self.spinner_pid, other.spinner_pid),
            spinner_throttle: spec_overwrite_some(self.spinner_throttle, other.spinner_throttle),
            spinner_axis: spec_overwrite_some(self.spinner_axis, other.spinner_axis),
            sniper_mode: spec_overwrite_some(self.sniper_mode, other.sniper_mode),
            browse_expand: spec_overwrite_some(self.browse_expand, other.browse_expand),
            logo: spec_overwrite_some(self.logo, other.logo),
            log_file_entry: spec_overwrite_some(self.log_file_entry, other.log_file_entry),
            shmask_mode_default: spec_overwrite_some(self.shmask_mode_default, other.shmask_mode_default),
            bt_auto_disconnect: spec_overwrite_some(self.bt_auto_disconnect, other.bt_auto_disconnect),
            bt_reset_before_pair: spec_overwrite_some(self.bt_reset_before_pair, other.bt_reset_before_pair),
            video_conf: spec_overwrite_some(self.video_conf, other.video_conf),
            video_conf_pal: spec_overwrite_some(self.video_conf_pal, other.video_conf_pal),
            video_conf_ntsc: spec_overwrite_some(self.video_conf_ntsc, other.video_conf_ntsc),
            font: spec_overwrite_some(self.font, other.font),
            shared_folder: spec_overwrite_some(self.shared_folder, other.shared_folder),
            waitmount: spec_overwrite_some(self.waitmount, other.waitmount),
            afilter_default: spec_overwrite_some(self.afilter_default, other.afilter_default),
            vfilter_default: spec_overwrite_some(self.vfilter_default, other.vfilter_default),
            vfilter_vertical_default: spec_overwrite_some(self.vfilter_vertical_default, other.vfilter_vertical_default),
            vfilter_scanlines_default: spec_overwrite_some(self.vfilter_scanlines_default, other.vfilter_scanlines_default),
            shmask_default: spec_overwrite_some(self.shmask_default, other.shmask_default),
            preset_default: spec_overwrite_some(self.preset_default, other.preset_default),
            player_controller: self.player_controller + other.player_controller,
            player_1_controller: self.player_1_controller + other.player_1_controller,
            player_2_controller: self.player_2_controller + other.player_2_controller,
            player_3_controller: self.player_3_controller + other.player_3_controller,
            player_4_controller: self.player_4_controller + other.player_4_controller,
            player_5_controller: self.player_5_controller + other.player_5_controller,
            player_6_controller: self.player_6_controller + other.player_6_controller,
            rumble: spec_overwrite_some(self.rumble, other.rumble),
            wheel_force: spec_overwrite_some(self.wheel_force, other.wheel_force),
            wheel_range: spec_overwrite_some(self.wheel_range, other.wheel_range),
            hdmi_game_mode: spec_overwrite_some(self.hdmi_game_mode, other.hdmi_game_mode),
            vrr_mode: spec_overwrite_some(self.vrr_mode, other.vrr_mode),
            vrr_min_framerate: spec_overwrite_some(self.vrr_min_framerate, other.vrr_min_framerate),
            vrr_max_framerate: spec_overwrite_some(self.vrr_max_framerate, other.vrr_max_framerate),
            vrr_vesa_framerate: spec_overwrite_some(self.vrr_vesa_framerate, other.vrr_vesa_framerate),
            video_off: spec_overwrite_some(self.video_off, other.video_off),
            disable_autofire: spec_overwrite_some(self.disable_autofire, other.disable_autofire),
            video_brightness: spec_overwrite_some(self.video_brightness, other.video_brightness),
            video_contrast: spec_overwrite_some(self.video_contrast, other.video_contrast),
            video_saturation: spec_overwrite_some(self.video_saturation, other.video_saturation),
            video_hue: spec_overwrite_some(self.video_hue, other.video_hue),
            video_gain_offset: spec_overwrite_some(self.video_gain_offset, other.video_gain_offset),
            hdr: spec_overwrite_some(self.hdr, other.hdr),
            hdr_max_nits: spec_overwrite_some(self.hdr_max_nits, other.hdr_max_nits),
            hdr_avg_nits: spec_overwrite_some(self.hdr_avg_nits, other.hdr_avg_nits),
            controller_unique_mapping: self.controller_unique_mapping + other.controller_unique_mapping,
        }
    }

    /// The section as it gives way to `named`: every optional field that
    /// `named` sets is unset, and the lists are as they are.
    pub open spec fn spec_yield_to(self, named: MisterConfigView) -> MisterConfigView {
        MisterConfigView {
            bootcore: spec_unless_set(self.bootcore, named.bootcore),
            vga_mode: spec_unless_set(self.vga_mode, named.vga_mode),
            ntsc_mode: spec_unless_set(self.ntsc_mode, named.ntsc_mode),
            reset_combo: spec_unless_set(self.reset_combo, named.reset_combo),
            hdmi_limited: spec_unless_set(self.hdmi_limited, named.hdmi_limited),
            mouse_throttle: spec_unless_set(self.mouse_throttle, named.mouse_throttle),
            keyrah_mode: spec_unless_set(self.keyrah_mode, named.keyrah_mode),
            custom_aspect_ratio: self.custom_aspect_ratio,
            custom_aspect_ratio_1: spec_unless_set(self.custom_aspect_ratio_1, named.custom_aspect_ratio_1),
            custom_aspect_ratio_2: spec_unless_set(self.custom_aspect_ratio_2, named.custom_aspect_ratio_2),
            forced_scandoubler: spec_unless_set(self.forced_scandoubler, named.forced_scandoubler),
            key_menu_as_rgui: spec_unless_set(self.key_menu_as_rgui, named.key_menu_as_rgui),
            composite_sync: spec_unless_set(self.composite_sync, named.composite_sync),
            vga_scaler: spec_unless_set(self.vga_scaler, named.vga_scaler),
            vga_sog: spec_unless_set(self.vga_sog, named.vga_sog),
            hdmi_audio_96k: spec_unless_set(self.hdmi_audio_96k, named.hdmi_audio_96k),
            dvi_mode: spec_unless_set(self.dvi_mode, named.dvi_mode),
            direct_video: spec_unless_set(self.direct_video, named.direct_video),
            video_info: spec_unless_set(self.video_info, named.video_info),
            controller_info: spec_unless_set(self.controller_info, named.controller_info),
            vsync_adjust: spec_unless_set(self.vsync_adjust, named.vsync_adjust),
            kbd_nomouse: spec_unless_set(self.kbd_nomouse, named.kbd_nomouse),
            bootscreen: spec_unless_set(self.bootscreen, named.bootscreen),
            vscale_mode: spec_unless_set(self.vscale_mode, named.vscale_mode),
            vscale_border: spec_unless_set(self.vscale_border, named.vscale_border),
            rbf_hide_datecode: spec_unless_set(self.rbf_hide_datecode, named.rbf_hide_datecode),
            menu_pal: spec_unless_set(self.menu_pal, named.menu_pal),
            bootcore_timeout: spec_unless_set(self.bootcore_timeout, named.bootcore_timeout),
            fb_size: spec_unless_set(self.fb_size, named.fb_size),
            fb_terminal: spec_unless_set(self.fb_terminal, named.fb_terminal),
            osd_rotate: spec_unless_set(self.osd_rotate, named.osd_rotate),
            osd_timeout: spec_unless_set(self.osd_timeout, named.osd_timeout),
            gamepad_defaults: spec_unless_set(self.gamepad_defaults, named.gamepad_defaults),
            recents: spec_unless_set(self.recents, named.recents),
            jamma_vid: spec_unless_set(self.jamma_vid, named.jamma_vid),
            jamma_pid: spec_unless_set(self.jamma_pid, named.jamma_pid),
            no_merge_vid: spec_unless_set(self.no_merge_vid, named.no_merge_vid),
            no_merge_pid: spec_unless_set(self.no_merge_pid, named.no_merge_pid),
            no_merge_vidpid: self.no_merge_vidpid,
            spinner_vid: spec_unless_set(self.spinner_vid, named.spinner_vid),
            spinner_pid: spec_unless_set(self.spinner_pid, named.spinner_pid),
            spinner_throttle: spec_unless_set(self.spinner_throttle, named.spinner_throttle),
            spinner_axis: spec_unless_set(self.spinner_axis, named.spinner_axis),
            sniper_mode: spec_unless_set(self.sniper_mode, named.sniper_mode),
            browse_expand: spec_unless_set(self.browse_expand, named.browse_expand),
            logo: spec_unless_set(self.logo, named.logo),
            log_file_entry: spec_unless_set(self.log_file_entry, named.log_file_entry),
            shmask_mode_default: spec_unless_set(self.shmask_mode_default, named.shmask_mode_default),
            bt_auto_disconnect: spec_unless_set(self.bt_auto_disconnect, named.bt_auto_disconnect),
            bt_reset_before_pair: spec_unless_set(self.bt_reset_before_pair, named.bt_reset_before_pair),
            video_conf: spec_unless_set(self.video_conf, named.video_conf),
            video_conf_pal: spec_unless_set(self.video_conf_pal, named.video_conf_pal),
            video_conf_ntsc: spec_unless_set(self.video_conf_ntsc, named.video_conf_ntsc),
            font: spec_unless_set(self.font, named.font),
            shared_folder: spec_unless_set(self.shared_folder, named.shared_folder),
            waitmount: spec_unless_set(self.waitmount, named.waitmount),
            afilter_default: spec_unless_set(self.afilter_default, named.afilter_default),
            vfilter_default: spec_unless_set(self.vfilter_default, named.vfilter_default),
            vfilter_vertical_default: spec_unless_set(self.vfilter_vertical_default, named.vfilter_vertical_default),
            vfilter_scanlines_default: spec_unless_set(self.vfilter_scanlines_default, named.vfilter_scanlines_default),
            shmask_default: spec_unless_set(self.shmask_default, named.shmask_default),
            preset_default: spec_unless_set(self.preset_default, named.preset_default),
            player_controller: self.player_controller,
            player_1_controller: self.player_1_controller,
            player_2_controller: self.player_2_controller,
            player_3_controller: self.player_3_controller,
            player_4_controller: self.player_4_controller,
            player_5_controller: self.player_5_controller,
            player_6_controller: self.player_6_controller,
            rumble: spec_unless_set(self.rumble, named.rumble),
            wheel_force: spec_unless_set(self.wheel_force, named.wheel_force),
            wheel_range: spec_unless_set(self.wheel_range, named.wheel_range),
            hdmi_game_mode: spec_unless_set(self.hdmi_game_mode, named.hdmi_game_mode),
            vrr_mode: spec_unless_set(self.vrr_mode, named.vrr_mode),
            vrr_min_framerate: spec_unless_set(self.vrr_min_framerate, named.vrr_min_framerate),
            vrr_max_framerate: spec_unless_set(self.vrr_max_framerate, named.vrr_max_framerate),
            vrr_vesa_framerate: spec_unless_set(self.vrr_vesa_framerate, named.vrr_vesa_framerate),
            video_off: spec_unless_set(self.video_off, named.video_off),
            disable_autofire: spec_unless_set(self.disable_autofire, named.disable_autofire),
            video_brightness: spec_unless_set(self.video_brightness, named.video_brightness),
            video_contrast: spec_unless_set(self.video_contrast, named.video_contrast),
            video_saturation: spec_unless_set(self.video_saturation, named.video_saturation),
            video_hue: spec_unless_set(self.video_hue, named.video_hue),
            video_gain_offset: spec_unless_set(self.video_gain_offset, named.video_gain_offset),
            hdr: spec_unless_set(self.hdr, named.hdr),
            hdr_max_nits: spec_unless_set(self.hdr_max_nits, named.hdr_max_nits),
            hdr_avg_nits: spec_unless_set(self.hdr_avg_nits, named.hdr_avg_nits),
            controller_unique_mapping: self.controller_unique_mapping,
        }
    }

    /// The section with the defaults filled in: a field that has a default and
    /// is unset takes it.
    pub open spec fn spec_set_defaults(self) -> MisterConfigView {
        MisterConfigView {
            bootscreen: spec_overwrite_some(Some(true), self.bootscreen),
            fb_terminal: spec_overwrite_some(Some(true), self.fb_terminal),
            controller_info: spec_overwrite_some(Some(6u64), self.controller_info),
            browse_expand: spec_overwrite_some(Some(true), self.browse_expand),
            logo: spec_overwrite_some(Some(true), self.logo),
            rumble: spec_overwrite_some(Some(true), self.rumble),
            wheel_force: spec_overwrite_some(Some(50u8), self.wheel_force),
            hdr_avg_nits: spec_overwrite_some(Some(250u16), self.hdr_avg_nits),
            hdr_max_nits: spec_overwrite_some(Some(1000u16), self.hdr_max_nits),
            video_brightness: spec_overwrite_some(Some(50u8), self.video_brightness),
            video_contrast: spec_overwrite_some(Some(50u8), self.video_contrast),
            video_saturation: spec_overwrite_some(Some(100u8), self.video_saturation),
            video_hue: spec_overwrite_some(Some(0u16), self.video_hue),
            video_conf: spec_overwrite_some(Some("6"@), self.video_conf),
            ..self
        }
    }

    /// The controllers of the players: the list of lists where it is not
    /// empty, else the lists of the six players that are not empty, in order.
    pub open spec fn spec_player_controller(self) -> Seq<Seq<Seq<char>>> {
        if self.player_controller.len() > 0 {
            self.player_controller
        } else {
            spec_unless_empty(self.player_1_controller) + spec_unless_empty(
                self.player_2_controller,
            ) + spec_unless_empty(self.player_3_controller) + spec_unless_empty(
                self.player_4_controller,
            ) + spec_unless_empty(self.player_5_controller) + spec_unless_empty(
                self.player_6_controller,
            )
        }
    }

    /// The custom aspect ratios: the list where it is not empty, else the
    /// first and the second custom aspect ratio of older files, as far as
    /// they are set.
    pub open spec fn spec_custom_aspect_ratio(self) -> Seq<Seq<char>> {
        if self.custom_aspect_ratio.len() > 0 {
            self.custom_aspect_ratio
        } else {
            (match self.custom_aspect_ratio_1 {
                Some(r) => seq![r],
                None => Seq::<Seq<char>>::empty(),
            }) + (match self.custom_aspect_ratio_2 {
                Some(r) => seq![r],
                None => Seq::<Seq<char>>::empty(),
            })
        }
    }

    /// Whether direct video is asked for.
    pub open spec fn spec_direct_video(self) -> bool {
        self.direct_video == Some(true)
    }

    /// How the refresh rate follows the core: never with direct video.
    pub open spec fn spec_vsync_adjust(self) -> VsyncAdjustConfig {
        if self.spec_direct_video() {
            VsyncAdjustConfig::Disabled
        } else {
            match self.vsync_adjust {
                Some(v) => v,
                None => VsyncAdjustConfig::Disabled,
            }
        }
    }
}

/// A percentage, held to at most 100.
pub open spec fn spec_percent(v: Option<u8>, default: u8) -> int {
    let p = match v {
        Some(p) => p,
        None => default,
    };
    if p > 100 {
        100
    } else {
        p as int
    }
}

fn percent(v: Option<u8>, default: u8) -> (r: u8)
    ensures
        r as int == spec_percent(v, default),
        r <= 100,
{
    let p = match v {
        Some(p) => p,
        None => default,
    };
    if p > 100 {
        100
    } else {
        p
    }
}

fn flag(v: Option<bool>) -> (r: bool)
    ensures
        r == (v == Some(true)),
{
    match v {
        Some(b) => b,
        None => false,
    }
}

fn push_unless_empty(list: &mut Vec<Vec<String>>, item: &Vec<String>)
    ensures
        final(list).deep_view() == old(list).deep_view() + spec_unless_empty(item.deep_view()),
{
    if item.len() > 0 {
        let copy = clone_strings(item);
        list.push(copy);
        assert(list.deep_view() =~= old(list).deep_view() + seq![item.deep_view()]);
    } else {
        assert(list.deep_view() =~= old(list).deep_view() + Seq::<Seq<Seq<char>>>::empty());
    }
}

impl MisterConfig {
    /// The section that sets nothing.
    pub fn new() -> (r: MisterConfig)
        ensures
            r@ == MisterConfigView::spec_empty(),
    {
        let r = MisterConfig {
            bootcore: None,
            vga_mode: None,
            ntsc_mode: None,
            reset_combo: None,
            hdmi_limited: None,
            mouse_throttle: None,
            keyrah_mode: None,
            custom_aspect_ratio: Vec::new(),
            custom_aspect_ratio_1: None,
            custom_aspect_ratio_2: None,
            forced_scandoubler: None,
            key_menu_as_rgui: None,
            composite_sync: None,
            vga_scaler: None,
            vga_sog: None,
            hdmi_audio_96k: None,
            dvi_mode: None,
            direct_video: None,
            video_info: None,
            controller_info: None,
            vsync_adjust: None,
            kbd_nomouse: None,
            bootscreen: None,
            vscale_mode: None,
            vscale_border: None,
            rbf_hide_datecode: None,
            menu_pal: None,
            bootcore_timeout: None,
            fb_size: None,
            fb_terminal: None,
            osd_rotate: None,
            osd_timeout: None,
            gamepad_defaults: None,
            recents: None,
            jamma_vid: None,
            jamma_pid: None,
            no_merge_vid: None,
            no_merge_pid: None,
            no_merge_vidpid: Vec::new(),
            spinner_vid: None,
            spinner_pid: None,
            spinner_throttle: None,
            spinner_axis: None,
            sniper_mode: None,
            browse_expand: None,
            logo: None,
            log_file_entry: None,
            shmask_mode_default: None,
            bt_auto_disconnect: None,
            bt_reset_before_pair: None,
            video_conf: None,
            video_conf_pal: None,
            video_conf_ntsc: None,
            font: None,
            shared_folder: None,
            waitmount: None,
            afilter_default: None,
            vfilter_default: None,
            vfilter_vertical_default: None,
            vfilter_scanlines_default: None,
            shmask_default: None,
            preset_default: None,
            player_controller: Vec::new(),
            player_1_controller: Vec::new(),
            player_2_controller: Vec::new(),
            player_3_controller: Vec::new(),
            player_4_controller: Vec::new(),
            player_5_controller: Vec::new(),
            player_6_controller: Vec::new(),
            rumble: None,
            wheel_force: None,
            wheel_range: None,
            hdmi_game_mode: None,
            vrr_mode: None,
            vrr_min_framerate: None,
            vrr_max_framerate: None,
            vrr_vesa_framerate: None,
            video_off: None,
            disable_autofire: None,
            video_brightness: None,
            video_contrast: None,
            video_saturation: None,
            video_hue: None,
            video_gain_offset: None,
            hdr: None,
            hdr_max_nits: None,
            hdr_avg_nits: None,
            controller_unique_mapping: Vec::new(),
        };
        assert(r@ =~~= MisterConfigView::spec_empty());
        r
    }

    /// The section that sets the defaults and nothing else.
    pub fn new_defaults() -> (r: MisterConfig)
        ensures
            r@ == MisterConfigView::spec_empty().spec_set_defaults(),
    {
        let mut config = MisterConfig::new();
        config.set_defaults();
        config
    }

    /// Fills in the defaults: each field that has one and is unset takes it.
    pub fn set_defaults(&mut self)
        ensures
            final(self)@ == old(self)@.spec_set_defaults(),
    {
        get_or_insert(&mut self.bootscreen, true);
        get_or_insert(&mut self.fb_terminal, true);
        get_or_insert(&mut self.controller_info, 6);
        get_or_insert(&mut self.browse_expand, true);
        get_or_insert(&mut self.logo, true);
        get_or_insert(&mut self.rumble, true);
        get_or_insert(&mut self.wheel_force, 50);
        get_or_insert(&mut self.hdr_avg_nits, 250);
        get_or_insert(&mut self.hdr_max_nits, 1000);
        get_or_insert(&mut self.video_brightness, 50);
        get_or_insert(&mut self.video_contrast, 50);
        get_or_insert(&mut self.video_saturation, 100);
        get_or_insert(&mut self.video_hue, 0);
        if self.video_conf.is_none() {
            self.video_conf = Some(String::from_str("6"));
        }
        assert(self@ =~~= old(self)@.spec_set_defaults());
    }

    /// Merges `other` into this section: a field that `other` sets is
    /// overwritten, a field that it leaves unset is kept, and a list has that
    /// of `other` appended.
    pub fn merge(&mut self, other: MisterConfig)
        ensures
            final(self)@ == old(self)@.spec_merge(other@),
    {
        let mut other = other;
        let ghost o = other@;
        overwrite_some(&mut self.bootcore, other.bootcore);
        overwrite_some(&mut self.vga_mode, other.vga_mode);
        overwrite_some(&mut self.ntsc_mode, other.ntsc_mode);
        overwrite_some(&mut self.reset_combo, other.reset_combo);
        overwrite_some(&mut self.hdmi_limited, other.hdmi_limited);
        overwrite_some(&mut self.mouse_throttle, other.mouse_throttle);
        overwrite_some(&mut self.keyrah_mode, other.keyrah_mode);
        append_deep(&mut self.custom_aspect_ratio, other.custom_aspect_ratio);
        overwrite_some(&mut self.custom_aspect_ratio_1, other.custom_aspect_ratio_1);
        overwrite_some(&mut self.custom_aspect_ratio_2, other.custom_aspect_ratio_2);
        overwrite_some(&mut self.forced_scandoubler, other.forced_scandoubler);
        overwrite_some(&mut self.key_menu_as_rgui, other.key_menu_as_rgui);
        overwrite_some(&mut self.composite_sync, other.composite_sync);
        overwrite_some(&mut self.vga_scaler, other.vga_scaler);
        overwrite_some(&mut self.vga_sog, other.vga_sog);
        overwrite_some(&mut self.hdmi_audio_96k, other.hdmi_audio_96k);
        overwrite_some(&mut self.dvi_mode, other.dvi_mode);
        overwrite_some(&mut self.direct_video, other.direct_video);
        overwrite_some(&mut self.video_info, other.video_info);
        overwrite_some(&mut self.controller_info, other.controller_info);
        overwrite_some(&mut self.vsync_adjust, other.vsync_adjust);
        overwrite_some(&mut self.kbd_nomouse, other.kbd_nomouse);
        overwrite_some(&mut self.bootscreen, other.bootscreen);
        overwrite_some(&mut self.vscale_mode, other.vscale_mode);
        overwrite_some(&mut self.vscale_border, other.vscale_border);
        overwrite_some(&mut self.rbf_hide_datecode, other.rbf_hide_datecode);
        overwrite_some(&mut self.menu_pal, other.menu_pal);
        overwrite_some(&mut self.bootcore_timeout, other.bootcore_timeout);
        overwrite_some(&mut self.fb_size, other.fb_size);
        overwrite_some(&mut self.fb_terminal, other.fb_terminal);
        overwrite_some(&mut self.osd_rotate, other.osd_rotate);
        overwrite_some(&mut self.osd_timeout, other.osd_timeout);
        overwrite_some(&mut self.gamepad_defaults, other.gamepad_defaults);
        overwrite_some(&mut self.recents, other.recents);
        overwrite_some(&mut self.jamma_vid, other.jamma_vid);
        overwrite_some(&mut self.jamma_pid, other.jamma_pid);
        overwrite_some(&mut self.no_merge_vid, other.no_merge_vid);
        overwrite_some(&mut self.no_merge_pid, other.no_merge_pid);
        self.no_merge_vidpid.append(&mut other.no_merge_vidpid);
        overwrite_some(&mut self.spinner_vid, other.spinner_vid);
        overwrite_some(&mut self.spinner_pid, other.spinner_pid);
        overwrite_some(&mut self.spinner_throttle, other.spinner_throttle);
        overwrite_some(&mut self.spinner_axis, other.spinner_axis);
        overwrite_some(&mut self.sniper_mode, other.sniper_mode);
        overwrite_some(&mut self.browse_expand, other.browse_expand);
        overwrite_some(&mut self.logo, other.logo);
        overwrite_some(&mut self.log_file_entry, other.log_file_entry);
        overwrite_some(&mut self.shmask_mode_default, other.shmask_mode_default);
        overwrite_some(&mut self.bt_auto_disconnect, other.bt_auto_disconnect);
        overwrite_some(&mut self.bt_reset_before_pair, other.bt_reset_before_pair);
        overwrite_some(&mut self.video_conf, other.video_conf);
        overwrite_some(&mut self.video_conf_pal, other.video_conf_pal);
        overwrite_some(&mut self.video_conf_ntsc, other.video_conf_ntsc);
        overwrite_some(&mut self.font, other.font);
        overwrite_some(&mut self.shared_folder, other.shared_folder);
        overwrite_some(&mut self.waitmount, other.waitmount);
        overwrite_some(&mut self.afilter_default, other.afilter_default);
        overwrite_some(&mut self.vfilter_default, other.vfilter_default);
        overwrite_some(&mut self.vfilter_vertical_default, other.vfilter_vertical_default);
        overwrite_some(&mut self.vfilter_scanlines_default, other.vfilter_scanlines_default);
        overwrite_some(&mut self.shmask_default, other.shmask_default);
        overwrite_some(&mut self.preset_default, other.preset_default);
        append_deep(&mut self.player_controller, other.player_controller);
        append_deep(&mut self.player_1_controller, other.player_1_controller);
        append_deep(&mut self.player_2_controller, other.player_2_controller);
        append_deep(&mut self.player_3_controller, other.player_3_controller);
        append_deep(&mut self.player_4_controller, other.player_4_controller);
        append_deep(&mut self.player_5_controller, other.player_5_controller);
        append_deep(&mut self.player_6_controller, other.player_6_controller);
        overwrite_some(&mut self.rumble, other.rumble);
        overwrite_some(&mut self.wheel_force, other.wheel_force);
        overwrite_some(&mut self.wheel_range, other.wheel_range);
        overwrite_some(&mut self.hdmi_game_mode, other.hdmi_game_mode);
        overwrite_some(&mut self.vrr_mode, other.vrr_mode);
        overwrite_some(&mut self.vrr_min_framerate, other.vrr_min_framerate);
        overwrite_some(&mut self.vrr_max_framerate, other.vrr_max_framerate);
        overwrite_some(&mut self.vrr_vesa_framerate, other.vrr_vesa_framerate);
        overwrite_some(&mut self.video_off, other.video_off);
        overwrite_some(&mut self.disable_autofire, other.disable_autofire);
        overwrite_some(&mut self.video_brightness, other.video_brightness);
        overwrite_some(&mut self.video_contrast, other.video_contrast);
        overwrite_some(&mut self.video_saturation, other.video_saturation);
        overwrite_some(&mut self.video_hue, other.video_hue);
        overwrite_some(&mut self.video_gain_offset, other.video_gain_offset);
        overwrite_some(&mut self.hdr, other.hdr);
        overwrite_some(&mut self.hdr_max_nits, other.hdr_max_nits);
        overwrite_some(&mut self.hdr_avg_nits, other.hdr_avg_nits);
        self.controller_unique_mapping.append(&mut other.controller_unique_mapping);
        assert(self@ =~~= old(self)@.spec_merge(o));
    }

    /// Gives way to `named`: every optional field that `named` sets is
    /// unset, and the lists stay as they are.
    pub fn yield_to(&mut self, named: &MisterConfig)
        ensures
            final(self)@ == old(self)@.spec_yield_to(named@),
    {
        unset_where_set(&mut self.bootcore, &named.bootcore);
        unset_where_set(&mut self.vga_mode, &named.vga_mode);
        unset_where_set(&mut self.ntsc_mode, &named.ntsc_mode);
        unset_where_set(&mut self.reset_combo, &named.reset_combo);
        unset_where_set(&mut self.hdmi_limited, &named.hdmi_limited);
        unset_where_set(&mut self.mouse_throttle, &named.mouse_throttle);
        unset_where_set(&mut self.keyrah_mode, &named.keyrah_mode);
        unset_where_set(&mut self.custom_aspect_ratio_1, &named.custom_aspect_ratio_1);
        unset_where_set(&mut self.custom_aspect_ratio_2, &named.custom_aspect_ratio_2);
        unset_where_set(&mut self.forced_scandoubler, &named.forced_scandoubler);
        unset_where_set(&mut self.key_menu_as_rgui, &named.key_menu_as_rgui);
        unset_where_set(&mut self.composite_sync, &named.composite_sync);
        unset_where_set(&mut self.vga_scaler, &named.vga_scaler);
        unset_where_set(&mut self.vga_sog, &named.vga_sog);
        unset_where_set(&mut self.hdmi_audio_96k, &named.hdmi_audio_96k);
        unset_where_set(&mut self.dvi_mode, &named.dvi_mode);
        unset_where_set(&mut self.direct_video, &named.direct_video);
        unset_where_set(&mut self.video_info, &named.video_info);
        unset_where_set(&mut self.controller_info, &named.controller_info);
        unset_where_set(&mut self.vsync_adjust, &named.vsync_adjust);
        unset_where_set(&mut self.kbd_nomouse, &named.kbd_nomouse);
        unset_where_set(&mut self.bootscreen, &named.bootscreen);
        unset_where_set(&mut self.vscale_mode, &named.vscale_mode);
        unset_where_set(&mut self.vscale_border, &named.vscale_border);
        unset_where_set(&mut self.rbf_hide_datecode, &named.rbf_hide_datecode);
        unset_where_set(&mut self.menu_pal, &named.menu_pal);
        unset_where_set(&mut self.bootcore_timeout, &named.bootcore_timeout);
        unset_where_set(&mut self.fb_size, &named.fb_size);
        unset_where_set(&mut self.fb_terminal, &named.fb_terminal);
        unset_where_set(&mut self.osd_rotate, &named.osd_rotate);
        unset_where_set(&mut self.osd_timeout, &named.osd_timeout);
        unset_where_set(&mut self.gamepad_defaults, &named.gamepad_defaults);
        unset_where_set(&mut self.recents, &named.recents);
        unset_where_set(&mut self.jamma_vid, &named.jamma_vid);
        unset_where_set(&mut self.jamma_pid, &named.jamma_pid);
        unset_where_set(&mut self.no_merge_vid, &named.no_merge_vid);
        unset_where_set(&mut self.no_merge_pid, &named.no_merge_pid);
        unset_where_set(&mut self.spinner_vid, &named.spinner_vid);
        unset_where_set(&mut self.spinner_pid, &named.spinner_pid);
        unset_where_set(&mut self.spinner_throttle, &named.spinner_throttle);
        unset_where_set(&mut self.spinner_axis, &named.spinner_axis);
        unset_where_set(&mut self.sniper_mode, &named.sniper_mode);
        unset_where_set(&mut self.browse_expand, &named.browse_expand);
        unset_where_set(&mut self.logo, &named.logo);
        unset_where_set(&mut self.log_file_entry, &named.log_file_entry);
        unset_where_set(&mut self.shmask_mode_default, &named.shmask_mode_default);
        unset_where_set(&mut self.bt_auto_disconnect, &named.bt_auto_disconnect);
        unset_where_set(&mut self.bt_reset_before_pair, &named.bt_reset_before_pair);
        unset_where_set(&mut self.video_conf, &named.video_conf);
        unset_where_set(&mut self.video_conf_pal, &named.video_conf_pal);
        unset_where_set(&mut self.video_conf_ntsc, &named.video_conf_ntsc);
        unset_where_set(&mut self.font, &named.font);
        unset_where_set(&mut self.shared_folder, &named.shared_folder);
        unset_where_set(&mut self.waitmount, &named.waitmount);
        unset_where_set(&mut self.afilter_default, &named.afilter_default);
        unset_where_set(&mut self.vfilter_default, &named.vfilter_default);
        unset_where_set(&mut self.vfilter_vertical_default, &named.vfilter_vertical_default);
        unset_where_set(&mut self.vfilter_scanlines_default, &named.vfilter_scanlines_default);
        unset_where_set(&mut self.shmask_default, &named.shmask_default);
        unset_where_set(&mut self.preset_default, &named.preset_default);
        unset_where_set(&mut self.rumble, &named.rumble);
        unset_where_set(&mut self.wheel_force, &named.wheel_force);
        unset_where_set(&mut self.wheel_range, &named.wheel_range);
        unset_where_set(&mut self.hdmi_game_mode, &named.hdmi_game_mode);
        unset_where_set(&mut self.vrr_mode, &named.vrr_mode);
        unset_where_set(&mut self.vrr_min_framerate, &named.vrr_min_framerate);
        unset_where_set(&mut self.vrr_max_framerate, &named.vrr_max_framerate);
        unset_where_set(&mut self.vrr_vesa_framerate, &named.vrr_vesa_framerate);
        unset_where_set(&mut self.video_off, &named.video_off);
        unset_where_set(&mut self.disable_autofire, &named.disable_autofire);
        unset_where_set(&mut self.video_brightness, &named.video_brightness);
        unset_where_set(&mut self.video_contrast, &named.video_contrast);
        unset_where_set(&mut self.video_saturation, &named.video_saturation);
        unset_where_set(&mut self.video_hue, &named.video_hue);
        unset_where_set(&mut self.video_gain_offset, &named.video_gain_offset);
        unset_where_set(&mut self.hdr, &named.hdr);
        unset_where_set(&mut self.hdr_max_nits, &named.hdr_max_nits);
        unset_where_set(&mut self.hdr_avg_nits, &named.hdr_avg_nits);
        assert(self@ =~~= old(self)@.spec_yield_to(named@));
    }

    /// A copy of this section.
    pub fn duplicate(&self) -> (r: MisterConfig)
        ensures
            r@ == self@,
    {
        let r = MisterConfig {
            bootcore: clone_opt_string(&self.bootcore),
            vga_mode: clone_opt_string(&self.vga_mode),
            ntsc_mode: clone_opt_string(&self.ntsc_mode),
            reset_combo: clone_opt_string(&self.reset_combo),
            hdmi_limited: clone_opt_string(&self.hdmi_limited),
            mouse_throttle: self.mouse_throttle,
            keyrah_mode: self.keyrah_mode,
            custom_aspect_ratio: clone_strings(&self.custom_aspect_ratio),
            custom_aspect_ratio_1: clone_opt_string(&self.custom_aspect_ratio_1),
            custom_aspect_ratio_2: clone_opt_string(&self.custom_aspect_ratio_2),
            forced_scandoubler: self.forced_scandoubler,
            key_menu_as_rgui: self.key_menu_as_rgui,
            composite_sync: self.composite_sync,
            vga_scaler: self.vga_scaler,
            vga_sog: self.vga_sog,
            hdmi_audio_96k: self.hdmi_audio_96k,
            dvi_mode: self.dvi_mode,
            direct_video: self.direct_video,
            video_info: self.video_info,
            controller_info: self.controller_info,
            vsync_adjust: self.vsync_adjust,
            kbd_nomouse: self.kbd_nomouse,
            bootscreen: self.bootscreen,
            vscale_mode: clone_opt_string(&self.vscale_mode),
            vscale_border: self.vscale_border,
            rbf_hide_datecode: self.rbf_hide_datecode,
            menu_pal: self.menu_pal,
            bootcore_timeout: self.bootcore_timeout,
            fb_size: self.fb_size,
            fb_terminal: self.fb_terminal,
            osd_rotate: clone_opt_string(&self.osd_rotate),
            osd_timeout: self.osd_timeout,
            gamepad_defaults: self.gamepad_defaults,
            recents: self.recents,
            jamma_vid: self.jamma_vid,
            jamma_pid: self.jamma_pid,
            no_merge_vid: self.no_merge_vid,
            no_merge_pid: self.no_merge_pid,
            no_merge_vidpid: self.no_merge_vidpid.clone(),
            spinner_vid: self.spinner_vid,
            spinner_pid: self.spinner_pid,
            spinner_throttle: self.spinner_throttle,
            spinner_axis: self.spinner_axis,
            sniper_mode: self.sniper_mode,
            browse_expand: self.browse_expand,
            logo: self.logo,
            log_file_entry: self.log_file_entry,
            shmask_mode_default: self.shmask_mode_default,
            bt_auto_disconnect: self.bt_auto_disconnect,
            bt_reset_before_pair: self.bt_reset_before_pair,
            video_conf: clone_opt_string(&self.video_conf),
            video_conf_pal: clone_opt_string(&self.video_conf_pal),
            video_conf_ntsc: clone_opt_string(&self.video_conf_ntsc),
            font: clone_opt_string(&self.font),
            shared_folder: clone_opt_string(&self.shared_folder),
            waitmount: clone_opt_string(&self.waitmount),
            afilter_default: clone_opt_string(&self.afilter_default),
            vfilter_default: clone_opt_string(&self.vfilter_default),
            vfilter_vertical_default: clone_opt_string(&self.vfilter_vertical_default),
            vfilter_scanlines_default: clone_opt_string(&self.vfilter_scanlines_default),
            shmask_default: clone_opt_string(&self.shmask_default),
            preset_default: clone_opt_string(&self.preset_default),
            player_controller: clone_string_lists(&self.player_controller),
            player_1_controller: clone_strings(&self.player_1_controller),
            player_2_controller: clone_strings(&self.player_2_controller),
            player_3_controller: clone_strings(&self.player_3_controller),
            player_4_controller: clone_strings(&self.player_4_controller),
            player_5_controller: clone_strings(&self.player_5_controller),
            player_6_controller: clone_strings(&self.player_6_controller),
            rumble: self.rumble,
            wheel_force: self.wheel_force,
            wheel_range: self.wheel_range,
            hdmi_game_mode: self.hdmi_game_mode,
            vrr_mode: clone_opt_string(&self.vrr_mode),
            vrr_min_framerate: self.vrr_min_framerate,
            vrr_max_framerate: self.vrr_max_framerate,
            vrr_vesa_framerate: self.vrr_vesa_framerate,
            video_off: self.video_off,
            disable_autofire: self.disable_autofire,
            video_brightness: self.video_brightness,
            video_contrast: self.video_contrast,
            video_saturation: self.video_saturation,
            video_hue: self.video_hue,
            video_gain_offset: clone_opt_string(&self.video_gain_offset),
            hdr: clone_opt_string(&self.hdr),
            hdr_max_nits: self.hdr_max_nits,
            hdr_avg_nits: self.hdr_avg_nits,
            controller_unique_mapping: self.controller_unique_mapping.clone(),
        };
        assert(r@ =~~= self@);
        r
    }

    /// The controllers of the players: the list of lists where it is not
    /// empty, else the lists of the six players that are not empty, in order.
    pub fn player_controller(&self) -> (r: Vec<Vec<String>>)
        ensures
            r.deep_view() == self@.spec_player_controller(),
    {
        if self.player_controller.len() == 0 {
            let mut vec: Vec<Vec<String>> = Vec::new();
            assert(vec.deep_view() =~= Seq::<Seq<Seq<char>>>::empty());
            push_unless_empty(&mut vec, &self.player_1_controller);
            push_unless_empty(&mut vec, &self.player_2_controller);
            push_unless_empty(&mut vec, &self.player_3_controller);
            push_unless_empty(&mut vec, &self.player_4_controller);
            push_unless_empty(&mut vec, &self.player_5_controller);
            push_unless_empty(&mut vec, &self.player_6_controller);
            assert(vec.deep_view() =~= self@.spec_player_controller());
            vec
        } else {
            clone_string_lists(&self.player_controller)
        }
    }

    /// The custom aspect ratios: the list where it is not empty, else the
    /// first and the second custom aspect ratio of older files, as far as
    /// they are set.
    pub fn custom_aspect_ratio(&self) -> (r: Vec<String>)
        ensures
            r.deep_view() == self@.spec_custom_aspect_ratio(),
    {
        if self.custom_aspect_ratio.len() == 0 {
            let mut vec: Vec<String> = Vec::new();
            if let Some(r) = &self.custom_aspect_ratio_1 {
                vec.push(r.clone());
            }
            if let Some(r) = &self.custom_aspect_ratio_2 {
                vec.push(r.clone());
            }
            assert(vec.deep_view() =~= self@.spec_custom_aspect_ratio());
            vec
        } else {
            clone_strings(&self.custom_aspect_ratio)
        }
    }

    /// Whether the HDMI output asks the display for its game mode.
    pub fn hdmi_game_mode(&self) -> (r: bool)
        ensures
            r == (self.hdmi_game_mode == Some(true)),
    {
        flag(self.hdmi_game_mode)
    }

    /// Peak luminance for HDR: 1000 where it is unset.
    pub fn hdr_max_nits(&self) -> (r: u16)
        ensures
            r == match self.hdr_max_nits {
                Some(v) => v,
                None => 1000u16,
            },
    {
        match self.hdr_max_nits {
            Some(v) => v,
            None => 1000,
        }
    }

    /// Average luminance for HDR: 250 where it is unset.
    pub fn hdr_avg_nits(&self) -> (r: u16)
        ensures
            r == match self.hdr_avg_nits {
                Some(v) => v,
                None => 250u16,
            },
    {
        match self.hdr_avg_nits {
            Some(v) => v,
            None => 250,
        }
    }

    /// Whether the HDMI output runs in DVI mode.
    pub fn dvi_mode(&self) -> (r: bool)
        ensures
            r == (self.dvi_mode == Some(true)),
    {
        flag(self.dvi_mode)
    }

    /// The DVI mode as it was set.
    pub fn dvi_mode_raw(&self) -> (r: Option<bool>)
        ensures
            r == self.dvi_mode,
    {
        self.dvi_mode
    }

    /// Whether HDMI audio runs at 96 kHz.
    pub fn hdmi_audio_96k(&self) -> (r: bool)
        ensures
            r == (self.hdmi_audio_96k == Some(true)),
    {
        flag(self.hdmi_audio_96k)
    }

    /// The brightness in hundredths, from -50 to 50: the percentage, 50 where
    /// it is unset, held to at most 100, less 50.
    pub fn video_brightness(&self) -> (r: i8)
        ensures
            r as int == spec_percent(self.video_brightness, 50) - 50,
    {
        let p = percent(self.video_brightness, 50);
        (p as i8) - 50
    }

    /// The contrast in hundredths, from 0 to 200: twice the percentage, 50
    /// where it is unset, held to at most 100.
    pub fn video_contrast(&self) -> (r: u8)
        ensures
            r as int == 2 * spec_percent(self.video_contrast, 50),
    {
        let p = percent(self.video_contrast, 50);
        2 * p
    }

    /// The saturation in hundredths, from 0 to 100: the percentage, 100 where
    /// it is unset, held to at most 100.
    pub fn video_saturation(&self) -> (r: u8)
        ensures
            r as int == spec_percent(self.video_saturation, 100),
    {
        percent(self.video_saturation, 100)
    }

    /// Whether direct video is asked for.
    pub fn direct_video(&self) -> (r: bool)
        ensures
            r == self@.spec_direct_video(),
    {
        flag(self.direct_video)
    }

    /// How the refresh rate follows the core: never with direct video.
    pub fn vsync_adjust(&self) -> (r: VsyncAdjustConfig)
        ensures
            r == self@.spec_vsync_adjust(),
    {
        if self.direct_video() {
            VsyncAdjustConfig::Disabled
        } else {
            match self.vsync_adjust {
                Some(v) => v,
                None => VsyncAdjustConfig::Disabled,
            }
        }
    }

    /// Whether the menu core runs in PAL.
    pub fn menu_pal(&self) -> (r: bool)
        ensures
            r == (self.menu_pal == Some(true)),
    {
        flag(self.menu_pal)
    }

    /// Whether the scandoubler always runs.
    pub fn forced_scandoubler(&self) -> (r: bool)
        ensures
            r == (self.forced_scandoubler == Some(true)),
    {
        flag(self.forced_scandoubler)
    }
}

/// Merging is associative: merging `c` into the merge of `a` and `b` gives
/// what merging the merge of `b` and `c` into `a` gives.
pub proof fn law_merge_associative(a: MisterConfigView, b: MisterConfigView, c: MisterConfigView)
    ensures
        a.spec_merge(b).spec_merge(c) == a.spec_merge(b.spec_merge(c)),
{
    assert(a.spec_merge(b).spec_merge(c) =~~= a.spec_merge(b.spec_merge(c)));
}

/// Merging a section that sets nothing changes nothing.
pub proof fn law_merge_empty(a: MisterConfigView)
    ensures
        a.spec_merge(MisterConfigView::spec_empty()) == a,
        MisterConfigView::spec_empty().spec_merge(a) == a,
{
    assert(a.spec_merge(MisterConfigView::spec_empty()) =~~= a);
    assert(MisterConfigView::spec_empty().spec_merge(a) =~~= a);
}

/// A field that the override leaves unset keeps the value of the base, and a
/// list of the base stays at the front of the merged list.
pub proof fn law_merge_absent_keeps_base(base: MisterConfigView, over: MisterConfigView)
    ensures
        over.bootcore.is_none() ==> base.spec_merge(over).bootcore == base.bootcore,
        over.vga_mode.is_none() ==> base.spec_merge(over).vga_mode == base.vga_mode,
        over.ntsc_mode.is_none() ==> base.spec_merge(over).ntsc_mode == base.ntsc_mode,
        over.reset_combo.is_none() ==> base.spec_merge(over).reset_combo == base.reset_combo,
        over.hdmi_limited.is_none() ==> base.spec_merge(over).hdmi_limited == base.hdmi_limited,
        over.mouse_throttle.is_none() ==> base.spec_merge(over).mouse_throttle == base.mouse_throttle,
        over.keyrah_mode.is_none() ==> base.spec_merge(over).keyrah_mode == base.keyrah_mode,
        base.spec_merge(over).custom_aspect_ratio.subrange(0, base.custom_aspect_ratio.len() as int) == base.custom_aspect_ratio,
        over.custom_aspect_ratio_1.is_none() ==> base.spec_merge(over).custom_aspect_ratio_1 == base.custom_aspect_ratio_1,
        over.custom_aspect_ratio_2.is_none() ==> base.spec_merge(over).custom_aspect_ratio_2 == base.custom_aspect_ratio_2,
        over.forced_scandoubler.is_none() ==> base.spec_merge(over).forced_scandoubler == base.forced_scandoubler,
        over.key_menu_as_rgui.is_none() ==> base.spec_merge(over).key_menu_as_rgui == base.key_menu_as_rgui,
        over.composite_sync.is_none() ==> base.spec_merge(over).composite_sync == base.composite_sync,
        over.vga_scaler.is_none() ==> base.spec_merge(over).vga_scaler == base.vga_scaler,
        over.vga_sog.is_none() ==> base.spec_merge(over).vga_sog == base.vga_sog,
        over.hdmi_audio_96k.is_none() ==> base.spec_merge(over).hdmi_audio_96k == base.hdmi_audio_96k,
        over.dvi_mode.is_none() ==> base.spec_merge(over).dvi_mode == base.dvi_mode,
        over.direct_video.is_none() ==> base.spec_merge(over).direct_video == base.direct_video,
        over.video_info.is_none() ==> base.spec_merge(over).video_info == base.video_info,
        over.controller_info.is_none() ==> base.spec_merge(over).controller_info == base.controller_info,
        over.vsync_adjust.is_none() ==> base.spec_merge(over).vsync_adjust == base.vsync_adjust,
        over.kbd_nomouse.is_none() ==> base.spec_merge(over).kbd_nomouse == base.kbd_nomouse,
        over.bootscreen.is_none() ==> base.spec_merge(over).bootscreen == base.bootscreen,
        over.vscale_mode.is_none() ==> base.spec_merge(over).vscale_mode == base.vscale_mode,
        over.vscale_border.is_none() ==> base.spec_merge(over).vscale_border == base.vscale_border,
        over.rbf_hide_datecode.is_none() ==> base.spec_merge(over).rbf_hide_datecode == base.rbf_hide_datecode,
        over.menu_pal.is_none() ==> base.spec_merge(over).menu_pal == base.menu_pal,
        over.bootcore_timeout.is_none() ==> base.spec_merge(over).bootcore_timeout == base.bootcore_timeout,
        over.fb_size.is_none() ==> base.spec_merge(over).fb_size == base.fb_size,
        over.fb_terminal.is_none() ==> base.spec_merge(over).fb_terminal == base.fb_terminal,
        over.osd_rotate.is_none() ==> base.spec_merge(over).osd_rotate == base.osd_rotate,
        over.osd_timeout.is_none() ==> base.spec_merge(over).osd_timeout == base.osd_timeout,
        over.gamepad_defaults.is_none() ==> base.spec_merge(over).gamepad_defaults == base.gamepad_defaults,
        over.recents.is_none() ==> base.spec_merge(over).recents == base.recents,
        over.jamma_vid.is_none() ==> base.spec_merge(over).jamma_vid == base.jamma_vid,
        over.jamma_pid.is_none() ==> base.spec_merge(over).jamma_pid == base.jamma_pid,
        over.no_merge_vid.is_none() ==> base.spec_merge(over).no_merge_vid == base.no_merge_vid,
        over.no_merge_pid.is_none() ==> base.spec_merge(over).no_merge_pid == base.no_merge_pid,
        base.spec_merge(over).no_merge_vidpid.subrange(0, base.no_merge_vidpid.len() as int) == base.no_merge_vidpid,
        over.spinner_vid.is_none() ==> base.spec_merge(over).spinner_vid == base.spinner_vid,
        over.spinner_pid.is_none() ==> base.spec_merge(over).spinner_pid == base.spinner_pid,
        over.spinner_throttle.is_none() ==> base.spec_merge(over).spinner_throttle == base.spinner_throttle,
        over.spinner_axis.is_none() ==> base.spec_merge(over).spinner_axis == base.spinner_axis,
        over.sniper_mode.is_none() ==> base.spec_merge(over).sniper_mode == base.sniper_mode,
        over.browse_expand.is_none() ==> base.spec_merge(over).browse_expand == base.browse_expand,
        over.logo.is_none() ==> base.spec_merge(over).logo == base.logo,
        over.log_file_entry.is_none() ==> base.spec_merge(over).log_file_entry == base.log_file_entry,
        over.shmask_mode_default.is_none() ==> base.spec_merge(over).shmask_mode_default == base.shmask_mode_default,
        over.bt_auto_disconnect.is_none() ==> base.spec_merge(over).bt_auto_disconnect == base.bt_auto_disconnect,
        over.bt_reset_before_pair.is_none() ==> base.spec_merge(over).bt_reset_before_pair == base.bt_reset_before_pair,
        over.video_conf.is_none() ==> base.spec_merge(over).video_conf == base.video_conf,
        over.video_conf_pal.is_none() ==> base.spec_merge(over).video_conf_pal == base.video_conf_pal,
        over.video_conf_ntsc.is_none() ==> base.spec_merge(over).video_conf_ntsc == base.video_conf_ntsc,
        over.font.is_none() ==> base.spec_merge(over).font == base.font,
        over.shared_folder.is_none() ==> base.spec_merge(over).shared_folder == base.shared_folder,
        over.waitmount.is_none() ==> base.spec_merge(over).waitmount == base.waitmount,
        over.afilter_default.is_none() ==> base.spec_merge(over).afilter_default == base.afilter_default,
        over.vfilter_default.is_none() ==> base.spec_merge(over).vfilter_default == base.vfilter_default,
        over.vfilter_vertical_default.is_none() ==> base.spec_merge(over).vfilter_vertical_default == base.vfilter_vertical_default,
        over.vfilter_scanlines_default.is_none() ==> base.spec_merge(over).vfilter_scanlines_default == base.vfilter_scanlines_default,
        over.shmask_default.is_none() ==> base.spec_merge(over).shmask_default == base.shmask_default,
        over.preset_default.is_none() ==> base.spec_merge(over).preset_default == base.preset_default,
        base.spec_merge(over).player_controller.subrange(0, base.player_controller.len() as int) == base.player_controller,
        base.spec_merge(over).player_1_controller.subrange(0, base.player_1_controller.len() as int) == base.player_1_controller,
        base.spec_merge(over).player_2_controller.subrange(0, base.player_2_controller.len() as int) == base.player_2_controller,
        base.spec_merge(over).player_3_controller.subrange(0, base.player_3_controller.len() as int) == base.player_3_controller,
        base.spec_merge(over).player_4_controller.subrange(0, base.player_4_controller.len() as int) == base.player_4_controller,
        base.spec_merge(over).player_5_controller.subrange(0, base.player_5_controller.len() as int) == base.player_5_controller,
        base.spec_merge(over).player_6_controller.subrange(0, base.player_6_controller.len() as int) == base.player_6_controller,
        over.rumble.is_none() ==> base.spec_merge(over).rumble == base.rumble,
        over.wheel_force.is_none() ==> base.spec_merge(over).wheel_force == base.wheel_force,
        over.wheel_range.is_none() ==> base.spec_merge(over).wheel_range == base.wheel_range,
        over.hdmi_game_mode.is_none() ==> base.spec_merge(over).hdmi_game_mode == base.hdmi_game_mode,
        over.vrr_mode.is_none() ==> base.spec_merge(over).vrr_mode == base.vrr_mode,
        over.vrr_min_framerate.is_none() ==> base.spec_merge(over).vrr_min_framerate == base.vrr_min_framerate,
        over.vrr_max_framerate.is_none() ==> base.spec_merge(over).vrr_max_framerate == base.vrr_max_framerate,
        over.vrr_vesa_framerate.is_none() ==> base.spec_merge(over).vrr_vesa_framerate == base.vrr_vesa_framerate,
        over.video_off.is_none() ==> base.spec_merge(over).video_off == base.video_off,
        over.disable_autofire.is_none() ==> base.spec_merge(over).disable_autofire == base.disable_autofire,
        over.video_brightness.is_none() ==> base.spec_merge(over).video_brightness == base.video_brightness,
        over.video_contrast.is_none() ==> base.spec_merge(over).video_contrast == base.video_contrast,
        over.video_saturation.is_none() ==> base.spec_merge(over).video_saturation == base.video_saturation,
        over.video_hue.is_none() ==> base.spec_merge(over).video_hue == base.video_hue,
        over.video_gain_offset.is_none() ==> base.spec_merge(over).video_gain_offset == base.video_gain_offset,
        over.hdr.is_none() ==> base.spec_merge(over).hdr == base.hdr,
        over.hdr_max_nits.is_none() ==> base.spec_merge(over).hdr_max_nits == base.hdr_max_nits,
        over.hdr_avg_nits.is_none() ==> base.spec_merge(over).hdr_avg_nits == base.hdr_avg_nits,
        base.spec_merge(over).controller_unique_mapping.subrange(0, base.controller_unique_mapping.len() as int) == base.controller_unique_mapping,
{
    assert(base.spec_merge(over).custom_aspect_ratio.subrange(0, base.custom_aspect_ratio.len() as int) =~= base.custom_aspect_ratio);
    assert(base.spec_merge(over).no_merge_vidpid.subrange(0, base.no_merge_vidpid.len() as int) =~= base.no_merge_vidpid);
    assert(base.spec_merge(over).player_controller.subrange(0, base.player_controller.len() as int) =~= base.player_controller);
    assert(base.spec_merge(over).player_1_controller.subrange(0, base.player_1_controller.len() as int) =~= base.player_1_controller);
    assert(base.spec_merge(over).player_2_controller.subrange(0, base.player_2_controller.len() as int) =~= base.player_2_controller);
    assert(base.spec_merge(over).player_3_controller.subrange(0, base.player_3_controller.len() as int) =~= base.player_3_controller);
    assert(base.spec_merge(over).player_4_controller.subrange(0, base.player_4_controller.len() as int) =~= base.player_4_controller);
    assert(base.spec_merge(over).player_5_controller.subrange(0, base.player_5_controller.len() as int) =~= base.player_5_controller);
    assert(base.spec_merge(over).player_6_controller.subrange(0, base.player_6_controller.len() as int) =~= base.player_6_controller);
    assert(base.spec_merge(over).controller_unique_mapping.subrange(0, base.controller_unique_mapping.len() as int) =~= base.controller_unique_mapping);
}

/// A field that the override sets takes the value of the override.
pub proof fn law_merge_present_overwrites(base: MisterConfigView, over: MisterConfigView)
    ensures
        over.bootcore.is_some() ==> base.spec_merge(over).bootcore == over.bootcore,
        over.vga_mode.is_some() ==> base.spec_merge(over).vga_mode == over.vga_mode,
        over.ntsc_mode.is_some() ==> base.spec_merge(over).ntsc_mode == over.ntsc_mode,
        over.reset_combo.is_some() ==> base.spec_merge(over).reset_combo == over.reset_combo,
        over.hdmi_limited.is_some() ==> base.spec_merge(over).hdmi_limited == over.hdmi_limited,
        over.mouse_throttle.is_some() ==> base.spec_merge(over).mouse_throttle == over.mouse_throttle,
        over.keyrah_mode.is_some() ==> base.spec_merge(over).keyrah_mode == over.keyrah_mode,
        over.custom_aspect_ratio_1.is_some() ==> base.spec_merge(over).custom_aspect_ratio_1 == over.custom_aspect_ratio_1,
        over.custom_aspect_ratio_2.is_some() ==> base.spec_merge(over).custom_aspect_ratio_2 == over.custom_aspect_ratio_2,
        over.forced_scandoubler.is_some() ==> base.spec_merge(over).forced_scandoubler == over.forced_scandoubler,
        over.key_menu_as_rgui.is_some() ==> base.spec_merge(over).key_menu_as_rgui == over.key_menu_as_rgui,
        over.composite_sync.is_some() ==> base.spec_merge(over).composite_sync == over.composite_sync,
        over.vga_scaler.is_some() ==> base.spec_merge(over).vga_scaler == over.vga_scaler,
        over.vga_sog.is_some() ==> base.spec_merge(over).vga_sog == over.vga_sog,
        over.hdmi_audio_96k.is_some() ==> base.spec_merge(over).hdmi_audio_96k == over.hdmi_audio_96k,
        over.dvi_mode.is_some() ==> base.spec_merge(over).dvi_mode == over.dvi_mode,
        over.direct_video.is_some() ==> base.spec_merge(over).direct_video == over.direct_video,
        over.video_info.is_some() ==> base.spec_merge(over).video_info == over.video_info,
        over.controller_info.is_some() ==> base.spec_merge(over).controller_info == over.controller_info,
        over.vsync_adjust.is_some() ==> base.spec_merge(over).vsync_adjust == over.vsync_adjust,
        over.kbd_nomouse.is_some() ==> base.spec_merge(over).kbd_nomouse == over.kbd_nomouse,
        over.bootscreen.is_some() ==> base.spec_merge(over).bootscreen == over.bootscreen,
        over.vscale_mode.is_some() ==> base.spec_merge(over).vscale_mode == over.vscale_mode,
        over.vscale_border.is_some() ==> base.spec_merge(over).vscale_border == over.vscale_border,
        over.rbf_hide_datecode.is_some() ==> base.spec_merge(over).rbf_hide_datecode == over.rbf_hide_datecode,
        over.menu_pal.is_some() ==> base.spec_merge(over).menu_pal == over.menu_pal,
        over.bootcore_timeout.is_some() ==> base.spec_merge(over).bootcore_timeout == over.bootcore_timeout,
        over.fb_size.is_some() ==> base.spec_merge(over).fb_size == over.fb_size,
        over.fb_terminal.is_some() ==> base.spec_merge(over).fb_terminal == over.fb_terminal,
        over.osd_rotate.is_some() ==> base.spec_merge(over).osd_rotate == over.osd_rotate,
        over.osd_timeout.is_some() ==> base.spec_merge(over).osd_timeout == over.osd_timeout,
        over.gamepad_defaults.is_some() ==> base.spec_merge(over).gamepad_defaults == over.gamepad_defaults,
        over.recents.is_some() ==> base.spec_merge(over).recents == over.recents,
        over.jamma_vid.is_some() ==> base.spec_merge(over).jamma_vid == over.jamma_vid,
        over.jamma_pid.is_some() ==> base.spec_merge(over).jamma_pid == over.jamma_pid,
        over.no_merge_vid.is_some() ==> base.spec_merge(over).no_merge_vid == over.no_merge_vid,
        over.no_merge_pid.is_some() ==> base.spec_merge(over).no_merge_pid == over.no_merge_pid,
        over.spinner_vid.is_some() ==> base.spec_merge(over).spinner_vid == over.spinner_vid,
        over.spinner_pid.is_some() ==> base.spec_merge(over).spinner_pid == over.spinner_pid,
        over.spinner_throttle.is_some() ==> base.spec_merge(over).spinner_throttle == over.spinner_throttle,
        over.spinner_axis.is_some() ==> base.spec_merge(over).spinner_axis == over.spinner_axis,
        over.sniper_mode.is_some() ==> base.spec_merge(over).sniper_mode == over.sniper_mode,
        over.browse_expand.is_some() ==> base.spec_merge(over).browse_expand == over.browse_expand,
        over.logo.is_some() ==> base.spec_merge(over).logo == over.logo,
        over.log_file_entry.is_some() ==> base.spec_merge(over).log_file_entry == over.log_file_entry,
        over.shmask_mode_default.is_some() ==> base.spec_merge(over).shmask_mode_default == over.shmask_mode_default,
        over.bt_auto_disconnect.is_some() ==> base.spec_merge(over).bt_auto_disconnect == over.bt_auto_disconnect,
        over.bt_reset_before_pair.is_some() ==> base.spec_merge(over).bt_reset_before_pair == over.bt_reset_before_pair,
        over.video_conf.is_some() ==> base.spec_merge(over).video_conf == over.video_conf,
        over.video_conf_pal.is_some() ==> base.spec_merge(over).video_conf_pal == over.video_conf_pal,
        over.video_conf_ntsc.is_some() ==> base.spec_merge(over).video_conf_ntsc == over.video_conf_ntsc,
        over.font.is_some() ==> base.spec_merge(over).font == over.font,
        over.shared_folder.is_some() ==> base.spec_merge(over).shared_folder == over.shared_folder,
        over.waitmount.is_some() ==> base.spec_merge(over).waitmount == over.waitmount,
        over.afilter_default.is_some() ==> base.spec_merge(over).afilter_default == over.afilter_default,
        over.vfilter_default.is_some() ==> base.spec_merge(over).vfilter_default == over.vfilter_default,
        over.vfilter_vertical_default.is_some() ==> base.spec_merge(over).vfilter_vertical_default == over.vfilter_vertical_default,
        over.vfilter_scanlines_default.is_some() ==> base.spec_merge(over).vfilter_scanlines_default == over.vfilter_scanlines_default,
        over.shmask_default.is_some() ==> base.spec_merge(over).shmask_default == over.shmask_default,
        over.preset_default.is_some() ==> base.spec_merge(over).preset_default == over.preset_default,
        over.rumble.is_some() ==> base.spec_merge(over).rumble == over.rumble,
        over.wheel_force.is_some() ==> base.spec_merge(over).wheel_force == over.wheel_force,
        over.wheel_range.is_some() ==> base.spec_merge(over).wheel_range == over.wheel_range,
        over.hdmi_game_mode.is_some() ==> base.spec_merge(over).hdmi_game_mode == over.hdmi_game_mode,
        over.vrr_mode.is_some() ==> base.spec_merge(over).vrr_mode == over.vrr_mode,
        over.vrr_min_framerate.is_some() ==> base.spec_merge(over).vrr_min_framerate == over.vrr_min_framerate,
        over.vrr_max_framerate.is_some() ==> base.spec_merge(over).vrr_max_framerate == over.vrr_max_framerate,
        over.vrr_vesa_framerate.is_some() ==> base.spec_merge(over).vrr_vesa_framerate == over.vrr_vesa_framerate,
        over.video_off.is_some() ==> base.spec_merge(over).video_off == over.video_off,
        over.disable_autofire.is_some() ==> base.spec_merge(over).disable_autofire == over.disable_autofire,
        over.video_brightness.is_some() ==> base.spec_merge(over).video_brightness == over.video_brightness,
        over.video_contrast.is_some() ==> base.spec_merge(over).video_contrast == over.video_contrast,
        over.video_saturation.is_some() ==> base.spec_merge(over).video_saturation == over.video_saturation,
        over.video_hue.is_some() ==> base.spec_merge(over).video_hue == over.video_hue,
        over.video_gain_offset.is_some() ==> base.spec_merge(over).video_gain_offset == over.video_gain_offset,
        over.hdr.is_some() ==> base.spec_merge(over).hdr == over.hdr,
        over.hdr_max_nits.is_some() ==> base.spec_merge(over).hdr_max_nits == over.hdr_max_nits,
        over.hdr_avg_nits.is_some() ==> base.spec_merge(over).hdr_avg_nits == over.hdr_avg_nits,
{
}

/// The value that wins among those that a base, the section of a resolution
/// and the section of a core give to a field: that of the core where it sets
/// one, else that of the resolution where it sets one, else that of the
/// base.
pub open spec fn spec_precedence<T>(base: Option<T>, video: Option<T>, named: Option<T>) -> Option<
    T,
> {
    if named.is_some() {
        named
    } else if video.is_some() {
        video
    } else {
        base
    }
}

/// Where the section of a resolution and then the section of a core are
/// merged into a base, what the section of the core sets wins over what the
/// section of the resolution sets, and that over what the base sets.
pub proof fn law_core_override_wins(
    base: MisterConfigView,
    video: MisterConfigView,
    named: MisterConfigView,
)
    ensures
        base.spec_merge(video).spec_merge(named).bootcore == spec_precedence(
            base.bootcore,
            video.bootcore,
            named.bootcore,
        ),
        base.spec_merge(video).spec_merge(named).vga_mode == spec_precedence(
            base.vga_mode,
            video.vga_mode,
            named.vga_mode,
        ),
        base.spec_merge(video).spec_merge(named).ntsc_mode == spec_precedence(
            base.ntsc_mode,
            video.ntsc_mode,
            named.ntsc_mode,
        ),
        base.spec_merge(video).spec_merge(named).reset_combo == spec_precedence(
            base.reset_combo,
            video.reset_combo,
            named.reset_combo,
        ),
        base.spec_merge(video).spec_merge(named).hdmi_limited == spec_precedence(
            base.hdmi_limited,
            video.hdmi_limited,
            named.hdmi_limited,
        ),
        base.spec_merge(video).spec_merge(named).mouse_throttle == spec_precedence(
            base.mouse_throttle,
            video.mouse_throttle,
            named.mouse_throttle,
        ),
        base.spec_merge(video).spec_merge(named).keyrah_mode == spec_precedence(
            base.keyrah_mode,
            video.keyrah_mode,
            named.keyrah_mode,
        ),
        base.spec_merge(video).spec_merge(named).custom_aspect_ratio == base.custom_aspect_ratio + video.custom_aspect_ratio + named.custom_aspect_ratio,
        base.spec_merge(video).spec_merge(named).custom_aspect_ratio_1 == spec_precedence(
            base.custom_aspect_ratio_1,
            video.custom_aspect_ratio_1,
            named.custom_aspect_ratio_1,
        ),
        base.spec_merge(video).spec_merge(named).custom_aspect_ratio_2 == spec_precedence(
            base.custom_aspect_ratio_2,
            video.custom_aspect_ratio_2,
            named.custom_aspect_ratio_2,
        ),
        base.spec_merge(video).spec_merge(named).forced_scandoubler == spec_precedence(
            base.forced_scandoubler,
            video.forced_scandoubler,
            named.forced_scandoubler,
        ),
        base.spec_merge(video).spec_merge(named).key_menu_as_rgui == spec_precedence(
            base.key_menu_as_rgui,
            video.key_menu_as_rgui,
            named.key_menu_as_rgui,
        ),
        base.spec_merge(video).spec_merge(named).composite_sync == spec_precedence(
            base.composite_sync,
            video.composite_sync,
            named.composite_sync,
        ),
        base.spec_merge(video).spec_merge(named).vga_scaler == spec_precedence(
            base.vga_scaler,
            video.vga_scaler,
            named.vga_scaler,
        ),
        base.spec_merge(video).spec_merge(named).vga_sog == spec_precedence(
            base.vga_sog,
            video.vga_sog,
            named.vga_sog,
        ),
        base.spec_merge(video).spec_merge(named).hdmi_audio_96k == spec_precedence(
            base.hdmi_audio_96k,
            video.hdmi_audio_96k,
            named.hdmi_audio_96k,
        ),
        base.spec_merge(video).spec_merge(named).dvi_mode == spec_precedence(
            base.dvi_mode,
            video.dvi_mode,
            named.dvi_mode,
        ),
        base.spec_merge(video).spec_merge(named).direct_video == spec_precedence(
            base.direct_video,
            video.direct_video,
            named.direct_video,
        ),
        base.spec_merge(video).spec_merge(named).video_info == spec_precedence(
            base.video_info,
            video.video_info,
            named.video_info,
        ),
        base.spec_merge(video).spec_merge(named).controller_info == spec_precedence(
            base.controller_info,
            video.controller_info,
            named.controller_info,
        ),
        base.spec_merge(video).spec_merge(named).vsync_adjust == spec_precedence(
            base.vsync_adjust,
            video.vsync_adjust,
            named.vsync_adjust,
        ),
        base.spec_merge(video).spec_merge(named).kbd_nomouse == spec_precedence(
            base.kbd_nomouse,
            video.kbd_nomouse,
            named.kbd_nomouse,
        ),
        base.spec_merge(video).spec_merge(named).bootscreen == spec_precedence(
            base.bootscreen,
            video.bootscreen,
            named.bootscreen,
        ),
        base.spec_merge(video).spec_merge(named).vscale_mode == spec_precedence(
            base.vscale_mode,
            video.vscale_mode,
            named.vscale_mode,
        ),
        base.spec_merge(video).spec_merge(named).vscale_border == spec_precedence(
            base.vscale_border,
            video.vscale_border,
            named.vscale_border,
        ),
        base.spec_merge(video).spec_merge(named).rbf_hide_datecode == spec_precedence(
            base.rbf_hide_datecode,
            video.rbf_hide_datecode,
            named.rbf_hide_datecode,
        ),
        base.spec_merge(video).spec_merge(named).menu_pal == spec_precedence(
            base.menu_pal,
            video.menu_pal,
            named.menu_pal,
        ),
        base.spec_merge(video).spec_merge(named).bootcore_timeout == spec_precedence(
            base.bootcore_timeout,
            video.bootcore_timeout,
            named.bootcore_timeout,
        ),
        base.spec_merge(video).spec_merge(named).fb_size == spec_precedence(
            base.fb_size,
            video.fb_size,
            named.fb_size,
        ),
        base.spec_merge(video).spec_merge(named).fb_terminal == spec_precedence(
            base.fb_terminal,
            video.fb_terminal,
            named.fb_terminal,
        ),
        base.spec_merge(video).spec_merge(named).osd_rotate == spec_precedence(
            base.osd_rotate,
            video.osd_rotate,
            named.osd_rotate,
        ),
        base.spec_merge(video).spec_merge(named).osd_timeout == spec_precedence(
            base.osd_timeout,
            video.osd_timeout,
            named.osd_timeout,
        ),
        base.spec_merge(video).spec_merge(named).gamepad_defaults == spec_precedence(
            base.gamepad_defaults,
            video.gamepad_defaults,
            named.gamepad_defaults,
        ),
        base.spec_merge(video).spec_merge(named).recents == spec_precedence(
            base.recents,
            video.recents,
            named.recents,
        ),
        base.spec_merge(video).spec_merge(named).jamma_vid == spec_precedence(
            base.jamma_vid,
            video.jamma_vid,
            named.jamma_vid,
        ),
        base.spec_merge(video).spec_merge(named).jamma_pid == spec_precedence(
            base.jamma_pid,
            video.jamma_pid,
            named.jamma_pid,
        ),
        base.spec_merge(video).spec_merge(named).no_merge_vid == spec_precedence(
            base.no_merge_vid,
            video.no_merge_vid,
            named.no_merge_vid,
        ),
        base.spec_merge(video).spec_merge(named).no_merge_pid == spec_precedence(
            base.no_merge_pid,
            video.no_merge_pid,
            named.no_merge_pid,
        ),
        base.spec_merge(video).spec_merge(named).no_merge_vidpid == base.no_merge_vidpid + video.no_merge_vidpid + named.no_merge_vidpid,
        base.spec_merge(video).spec_merge(named).spinner_vid == spec_precedence(
            base.spinner_vid,
            video.spinner_vid,
            named.spinner_vid,
        ),
        base.spec_merge(video).spec_merge(named).spinner_pid == spec_precedence(
            base.spinner_pid,
            video.spinner_pid,
            named.spinner_pid,
        ),
        base.spec_merge(video).spec_merge(named).spinner_throttle == spec_precedence(
            base.spinner_throttle,
            video.spinner_throttle,
            named.spinner_throttle,
        ),
        base.spec_merge(video).spec_merge(named).spinner_axis == spec_precedence(
            base.spinner_axis,
            video.spinner_axis,
            named.spinner_axis,
        ),
        base.spec_merge(video).spec_merge(named).sniper_mode == spec_precedence(
            base.sniper_mode,
            video.sniper_mode,
            named.sniper_mode,
        ),
        base.spec_merge(video).spec_merge(named).browse_expand == spec_precedence(
            base.browse_expand,
            video.browse_expand,
            named.browse_expand,
        ),
        base.spec_merge(video).spec_merge(named).logo == spec_precedence(
            base.logo,
            video.logo,
            named.logo,
        ),
        base.spec_merge(video).spec_merge(named).log_file_entry == spec_precedence(
            base.log_file_entry,
            video.log_file_entry,
            named.log_file_entry,
        ),
        base.spec_merge(video).spec_merge(named).shmask_mode_default == spec_precedence(
            base.shmask_mode_default,
            video.shmask_mode_default,
            named.shmask_mode_default,
        ),
        base.spec_merge(video).spec_merge(named).bt_auto_disconnect == spec_precedence(
            base.bt_auto_disconnect,
            video.bt_auto_disconnect,
            named.bt_auto_disconnect,
        ),
        base.spec_merge(video).spec_merge(named).bt_reset_before_pair == spec_precedence(
            base.bt_reset_before_pair,
            video.bt_reset_before_pair,
            named.bt_reset_before_pair,
        ),
        base.spec_merge(video).spec_merge(named).video_conf == spec_precedence(
            base.video_conf,
            video.video_conf,
            named.video_conf,
        ),
        base.spec_merge(video).spec_merge(named).video_conf_pal == spec_precedence(
            base.video_conf_pal,
            video.video_conf_pal,
            named.video_conf_pal,
        ),
        base.spec_merge(video).spec_merge(named).video_conf_ntsc == spec_precedence(
            base.video_conf_ntsc,
            video.video_conf_ntsc,
            named.video_conf_ntsc,
        ),
        base.spec_merge(video).spec_merge(named).font == spec_precedence(
            base.font,
            video.font,
            named.font,
        ),
        base.spec_merge(video).spec_merge(named).shared_folder == spec_precedence(
            base.shared_folder,
            video.shared_folder,
            named.shared_folder,
        ),
        base.spec_merge(video).spec_merge(named).waitmount == spec_precedence(
            base.waitmount,
            video.waitmount,
            named.waitmount,
        ),
        base.spec_merge(video).spec_merge(named).afilter_default == spec_precedence(
            base.afilter_default,
            video.afilter_default,
            named.afilter_default,
        ),
        base.spec_merge(video).spec_merge(named).vfilter_default == spec_precedence(
            base.vfilter_default,
            video.vfilter_default,
            named.vfilter_default,
        ),
        base.spec_merge(video).spec_merge(named).vfilter_vertical_default == spec_precedence(
            base.vfilter_vertical_default,
            video.vfilter_vertical_default,
            named.vfilter_vertical_default,
        ),
        base.spec_merge(video).spec_merge(named).vfilter_scanlines_default == spec_precedence(
            base.vfilter_scanlines_default,
            video.vfilter_scanlines_default,
            named.vfilter_scanlines_default,
        ),
        base.spec_merge(video).spec_merge(named).shmask_default == spec_precedence(
            base.shmask_default,
            video.shmask_default,
            named.shmask_default,
        ),
        base.spec_merge(video).spec_merge(named).preset_default == spec_precedence(
            base.preset_default,
            video.preset_default,
            named.preset_default,
        ),
        base.spec_merge(video).spec_merge(named).player_controller == base.player_controller + video.player_controller + named.player_controller,
        base.spec_merge(video).spec_merge(named).player_1_controller == base.player_1_controller + video.player_1_controller + named.player_1_controller,
        base.spec_merge(video).spec_merge(named).player_2_controller == base.player_2_controller + video.player_2_controller + named.player_2_controller,
        base.spec_merge(video).spec_merge(named).player_3_controller == base.player_3_controller + video.player_3_controller + named.player_3_controller,
        base.spec_merge(video).spec_merge(named).player_4_controller == base.player_4_controller + video.player_4_controller + named.player_4_controller,
        base.spec_merge(video).spec_merge(named).player_5_controller == base.player_5_controller + video.player_5_controller + named.player_5_controller,
        base.spec_merge(video).spec_merge(named).player_6_controller == base.player_6_controller + video.player_6_controller + named.player_6_controller,
        base.spec_merge(video).spec_merge(named).rumble == spec_precedence(
            base.rumble,
            video.rumble,
            named.rumble,
        ),
        base.spec_merge(video).spec_merge(named).wheel_force == spec_precedence(
            base.wheel_force,
            video.wheel_force,
            named.wheel_force,
        ),
        base.spec_merge(video).spec_merge(named).wheel_range == spec_precedence(
            base.wheel_range,
            video.wheel_range,
            named.wheel_range,
        ),
        base.spec_merge(video).spec_merge(named).hdmi_game_mode == spec_precedence(
            base.hdmi_game_mode,
            video.hdmi_game_mode,
            named.hdmi_game_mode,
        ),
        base.spec_merge(video).spec_merge(named).vrr_mode == spec_precedence(
            base.vrr_mode,
            video.vrr_mode,
            named.vrr_mode,
        ),
        base.spec_merge(video).spec_merge(named).vrr_min_framerate == spec_precedence(
            base.vrr_min_framerate,
            video.vrr_min_framerate,
            named.vrr_min_framerate,
        ),
        base.spec_merge(video).spec_merge(named).vrr_max_framerate == spec_precedence(
            base.vrr_max_framerate,
            video.vrr_max_framerate,
            named.vrr_max_framerate,
        ),
        base.spec_merge(video).spec_merge(named).vrr_vesa_framerate == spec_precedence(
            base.vrr_vesa_framerate,
            video.vrr_vesa_framerate,
            named.vrr_vesa_framerate,
        ),
        base.spec_merge(video).spec_merge(named).video_off == spec_precedence(
            base.video_off,
            video.video_off,
            named.video_off,
        ),
        base.spec_merge(video).spec_merge(named).disable_autofire == spec_precedence(
            base.disable_autofire,
            video.disable_autofire,
            named.disable_autofire,
        ),
        base.spec_merge(video).spec_merge(named).video_brightness == spec_precedence(
            base.video_brightness,
            video.video_brightness,
            named.video_brightness,
        ),
        base.spec_merge(video).spec_merge(named).video_contrast == spec_precedence(
            base.video_contrast,
            video.video_contrast,
            named.video_contrast,
        ),
        base.spec_merge(video).spec_merge(named).video_saturation == spec_precedence(
            base.video_saturation,
            video.video_saturation,
            named.video_saturation,
        ),
        base.spec_merge(video).spec_merge(named).video_hue == spec_precedence(
            base.video_hue,
            video.video_hue,
            named.video_hue,
        ),
        base.spec_merge(video).spec_merge(named).video_gain_offset == spec_precedence(
            base.video_gain_offset,
            video.video_gain_offset,
            named.video_gain_offset,
        ),
        base.spec_merge(video).spec_merge(named).hdr == spec_precedence(
            base.hdr,
            video.hdr,
            named.hdr,
        ),
        base.spec_merge(video).spec_merge(named).hdr_max_nits == spec_precedence(
            base.hdr_max_nits,
            video.hdr_max_nits,
            named.hdr_max_nits,
        ),
        base.spec_merge(video).spec_merge(named).hdr_avg_nits == spec_precedence(
            base.hdr_avg_nits,
            video.hdr_avg_nits,
            named.hdr_avg_nits,
        ),
        base.spec_merge(video).spec_merge(named).controller_unique_mapping == base.controller_unique_mapping + video.controller_unique_mapping + named.controller_unique_mapping,
{
}

/// What the section of a core sets wins over what the section of a
/// resolution sets in whichever order the two are merged: where the section
/// of the core was merged first, the section of the resolution gives way to
/// it, and every optional field ends as where the section of the resolution
/// was merged first.
pub proof fn law_core_override_wins_in_either_order(
    base: MisterConfigView,
    video: MisterConfigView,
    named: MisterConfigView,
)
    ensures
        base.spec_merge(named).spec_merge(video.spec_yield_to(named)).bootcore == spec_precedence(
            base.bootcore,
            video.bootcore,
            named.bootcore,
        ),
        base.spec_merge(named).spec_merge(video.spec_yield_to(named)).vga_mode == spec_precedence(
            base.vga_mode,
            video.vga_mode,
            named.vga_mode,
        ),
        base.spec_merge(named).spec_merge(video.spec_yield_to(named)).ntsc_mode == spec_precedence(
            base.ntsc_mode,
            video.ntsc_mode,
            named.ntsc_mode,
        ),
        base.spec_merge(named).spec_merge(video.spec_yield_to(named)).reset_combo == spec_precedence(
            base.reset_combo,
            video.reset_combo,
            named.reset_combo,
        ),
        base.spec_merge(named).spec_merge(video.spec_yield_to(named)).hdmi_limited == spec_precedence(
            base.hdmi_limited,
            video.hdmi_limited,
            named.hdmi_limited,
        ),
        base.spec_merge(named).spec_merge(video.spec_yield_to(named)).mouse_throttle == spec_precedence(
            base.mouse_throttle,
            video.mouse_throttle,
            named.mouse_throttle,
        ),
        base.spec_merge(named).spec_merge(video.spec_yield_to(named)).keyrah_mode == spec_precedence(
            base.keyrah_mode,
            video.keyrah_mode,
            named.keyrah_mode,
        ),
        base.spec_merge(named).spec_merge(video.spec_yield_to(named)).custom_aspect_ratio_1 == spec_precedence(
            base.custom_aspect_ratio_1,
            video.custom_aspect_ratio_1,
            named.custom_aspect_ratio_1,
        ),
        base.spec_merge(named).spec_merge(video.spec_yield_to(named)).custom_aspect_ratio_2 == spec_precedence(
            base.custom_aspect_ratio_2,
            video.custom_aspect_ratio_2,
            named.custom_aspect_ratio_2,
        ),
        base.spec_merge(named).spec_merge(video.spec_yield_to(named)).forced_scandoubler == spec_precedence(
            base.forced_scandoubler,
            video.forced_scandoubler,
            named.forced_scandoubler,
        ),
        base.spec_merge(named).spec_merge(video.spec_yield_to(named)).key_menu_as_rgui == spec_precedence(
            base.key_menu_as_rgui,
            video.key_menu_as_rgui,
            named.key_menu_as_rgui,
        ),
        base.spec_merge(named).spec_merge(video.spec_yield_to(named)).composite_sync == spec_precedence(
            base.composite_sync,
            video.composite_sync,
            named.composite_sync,
        ),
        base.spec_merge(named).spec_merge(video.spec_yield_to(named)).vga_scaler == spec_precedence(
            base.vga_scaler,
            video.vga_scaler,
            named.vga_scaler,
        ),
        base.spec_merge(named).spec_merge(video.spec_yield_to(named)).vga_sog == spec_precedence(
            base.vga_sog,
            video.vga_sog,
            named.vga_sog,
        ),
        base.spec_merge(named).spec_merge(video.spec_yield_to(named)).hdmi_audio_96k == spec_precedence(
            base.hdmi_audio_96k,
            video.hdmi_audio_96k,
            named.hdmi_audio_96k,
        ),
        base.spec_merge(named).spec_merge(video.spec_yield_to(named)).dvi_mode == spec_precedence(
            base.dvi_mode,
            video.dvi_mode,
            named.dvi_mode,
        ),
        base.spec_merge(named).spec_merge(video.spec_yield_to(named)).direct_video == spec_precedence(
            base.direct_video,
            video.direct_video,
            named.direct_video,
        ),
        base.spec_merge(named).spec_merge(video.spec_yield_to(named)).video_info == spec_precedence(
            base.video_info,
            video.video_info,
            named.video_info,
        ),
        base.spec_merge(named).spec_merge(video.spec_yield_to(named)).controller_info == spec_precedence(
            base.controller_info,
            video.controller_info,
            named.controller_info,
        ),
        base.spec_merge(named).spec_merge(video.spec_yield_to(named)).vsync_adjust == spec_precedence(
            base.vsync_adjust,
            video.vsync_adjust,
            named.vsync_adjust,
        ),
        base.spec_merge(named).spec_merge(video.spec_yield_to(named)).kbd_nomouse == spec_precedence(
            base.kbd_nomouse,
            video.kbd_nomouse,
            named.kbd_nomouse,
        ),
        base.spec_merge(named).spec_merge(video.spec_yield_to(named)).bootscreen == spec_precedence(
            base.bootscreen,
            video.bootscreen,
            named.bootscreen,
        ),
        base.spec_merge(named).spec_merge(video.spec_yield_to(named)).vscale_mode == spec_precedence(
            base.vscale_mode,
            video.vscale_mode,
            named.vscale_mode,
        ),
        base.spec_merge(named).spec_merge(video.spec_yield_to(named)).vscale_border == spec_precedence(
            base.vscale_border,
            video.vscale_border,
            named.vscale_border,
        ),
        base.spec_merge(named).spec_merge(video.spec_yield_to(named)).rbf_hide_datecode == spec_precedence(
            base.rbf_hide_datecode,
            video.rbf_hide_datecode,
            named.rbf_hide_datecode,
        ),
        base.spec_merge(named).spec_merge(video.spec_yield_to(named)).menu_pal == spec_precedence(
            base.menu_pal,
            video.menu_pal,
            named.menu_pal,
        ),
        base.spec_merge(named).spec_merge(video.spec_yield_to(named)).bootcore_timeout == spec_precedence(
            base.bootcore_timeout,
            video.bootcore_timeout,
            named.bootcore_timeout,
        ),
        base.spec_merge(named).spec_merge(video.spec_yield_to(named)).fb_size == spec_precedence(
            base.fb_size,
            video.fb_size,
            named.fb_size,
        ),
        base.spec_merge(named).spec_merge(video.spec_yield_to(named)).fb_terminal == spec_precedence(
            base.fb_terminal,
            video.fb_terminal,
            named.fb_terminal,
        ),
        base.spec_merge(named).spec_merge(video.spec_yield_to(named)).osd_rotate == spec_precedence(
            base.osd_rotate,
            video.osd_rotate,
            named.osd_rotate,
        ),
        base.spec_merge(named).spec_merge(video.spec_yield_to(named)).osd_timeout == spec_precedence(
            base.osd_timeout,
            video.osd_timeout,
            named.osd_timeout,
        ),
        base.spec_merge(named).spec_merge(video.spec_yield_to(named)).gamepad_defaults == spec_precedence(
            base.gamepad_defaults,
            video.gamepad_defaults,
            named.gamepad_defaults,
        ),
        base.spec_merge(named).spec_merge(video.spec_yield_to(named)).recents == spec_precedence(
            base.recents,
            video.recents,
            named.recents,
        ),
        base.spec_merge(named).spec_merge(video.spec_yield_to(named)).jamma_vid == spec_precedence(
            base.jamma_vid,
            video.jamma_vid,
            named.jamma_vid,
        ),
        base.spec_merge(named).spec_merge(video.spec_yield_to(named)).jamma_pid == spec_precedence(
            base.jamma_pid,
            video.jamma_pid,
            named.jamma_pid,
        ),
        base.spec_merge(named).spec_merge(video.spec_yield_to(named)).no_merge_vid == spec_precedence(
            base.no_merge_vid,
            video.no_merge_vid,
            named.no_merge_vid,
        ),
        base.spec_merge(named).spec_merge(video.spec_yield_to(named)).no_merge_pid == spec_precedence(
            base.no_merge_pid,
            video.no_merge_pid,
            named.no_merge_pid,
        ),
        base.spec_merge(named).spec_merge(video.spec_yield_to(named)).spinner_vid == spec_precedence(
            base.spinner_vid,
            video.spinner_vid,
            named.spinner_vid,
        ),
        base.spec_merge(named).spec_merge(video.spec_yield_to(named)).spinner_pid == spec_precedence(
            base.spinner_pid,
            video.spinner_pid,
            named.spinner_pid,
        ),
        base.spec_merge(named).spec_merge(video.spec_yield_to(named)).spinner_throttle == spec_precedence(
            base.spinner_throttle,
            video.spinner_throttle,
            named.spinner_throttle,
        ),
        base.spec_merge(named).spec_merge(video.spec_yield_to(named)).spinner_axis == spec_precedence(
            base.spinner_axis,
            video.spinner_axis,
            named.spinner_axis,
        ),
        base.spec_merge(named).spec_merge(video.spec_yield_to(named)).sniper_mode == spec_precedence(
            base.sniper_mode,
            video.sniper_mode,
            named.sniper_mode,
        ),
        base.spec_merge(named).spec_merge(video.spec_yield_to(named)).browse_expand == spec_precedence(
            base.browse_expand,
            video.browse_expand,
            named.browse_expand,
        ),
        base.spec_merge(named).spec_merge(video.spec_yield_to(named)).logo == spec_precedence(
            base.logo,
            video.logo,
            named.logo,
        ),
        base.spec_merge(named).spec_merge(video.spec_yield_to(named)).log_file_entry == spec_precedence(
            base.log_file_entry,
            video.log_file_entry,
            named.log_file_entry,
        ),
        base.spec_merge(named).spec_merge(video.spec_yield_to(named)).shmask_mode_default == spec_precedence(
            base.shmask_mode_default,
            video.shmask_mode_default,
            named.shmask_mode_default,
        ),
        base.spec_merge(named).spec_merge(video.spec_yield_to(named)).bt_auto_disconnect == spec_precedence(
            base.bt_auto_disconnect,
            video.bt_auto_disconnect,
            named.bt_auto_disconnect,
        ),
        base.spec_merge(named).spec_merge(video.spec_yield_to(named)).bt_reset_before_pair == spec_precedence(
            base.bt_reset_before_pair,
            video.bt_reset_before_pair,
            named.bt_reset_before_pair,
        ),
        base.spec_merge(named).spec_merge(video.spec_yield_to(named)).video_conf == spec_precedence(
            base.video_conf,
            video.video_conf,
            named.video_conf,
        ),
        base.spec_merge(named).spec_merge(video.spec_yield_to(named)).video_conf_pal == spec_precedence(
            base.video_conf_pal,
            video.video_conf_pal,
            named.video_conf_pal,
        ),
        base.spec_merge(named).spec_merge(video.spec_yield_to(named)).video_conf_ntsc == spec_precedence(
            base.video_conf_ntsc,
            video.video_conf_ntsc,
            named.video_conf_ntsc,
        ),
        base.spec_merge(named).spec_merge(video.spec_yield_to(named)).font == spec_precedence(
            base.font,
            video.font,
            named.font,
        ),
        base.spec_merge(named).spec_merge(video.spec_yield_to(named)).shared_folder == spec_precedence(
            base.shared_folder,
            video.shared_folder,
            named.shared_folder,
        ),
        base.spec_merge(named).spec_merge(video.spec_yield_to(named)).waitmount == spec_precedence(
            base.waitmount,
            video.waitmount,
            named.waitmount,
        ),
        base.spec_merge(named).spec_merge(video.spec_yield_to(named)).afilter_default == spec_precedence(
            base.afilter_default,
            video.afilter_default,
            named.afilter_default,
        ),
        base.spec_merge(named).spec_merge(video.spec_yield_to(named)).vfilter_default == spec_precedence(
            base.vfilter_default,
            video.vfilter_default,
            named.vfilter_default,
        ),
        base.spec_merge(named).spec_merge(video.spec_yield_to(named)).vfilter_vertical_default == spec_precedence(
            base.vfilter_vertical_default,
            video.vfilter_vertical_default,
            named.vfilter_vertical_default,
        ),
        base.spec_merge(named).spec_merge(video.spec_yield_to(named)).vfilter_scanlines_default == spec_precedence(
            base.vfilter_scanlines_default,
            video.vfilter_scanlines_default,
            named.vfilter_scanlines_default,
        ),
        base.spec_merge(named).spec_merge(video.spec_yield_to(named)).shmask_default == spec_precedence(
            base.shmask_default,
            video.shmask_default,
            named.shmask_default,
        ),
        base.spec_merge(named).spec_merge(video.spec_yield_to(named)).preset_default == spec_precedence(
            base.preset_default,
            video.preset_default,
            named.preset_default,
        ),
        base.spec_merge(named).spec_merge(video.spec_yield_to(named)).rumble == spec_precedence(
            base.rumble,
            video.rumble,
            named.rumble,
        ),
        base.spec_merge(named).spec_merge(video.spec_yield_to(named)).wheel_force == spec_precedence(
            base.wheel_force,
            video.wheel_force,
            named.wheel_force,
        ),
        base.spec_merge(named).spec_merge(video.spec_yield_to(named)).wheel_range == spec_precedence(
            base.wheel_range,
            video.wheel_range,
            named.wheel_range,
        ),
        base.spec_merge(named).spec_merge(video.spec_yield_to(named)).hdmi_game_mode == spec_precedence(
            base.hdmi_game_mode,
            video.hdmi_game_mode,
            named.hdmi_game_mode,
        ),
        base.spec_merge(named).spec_merge(video.spec_yield_to(named)).vrr_mode == spec_precedence(
            base.vrr_mode,
            video.vrr_mode,
            named.vrr_mode,
        ),
        base.spec_merge(named).spec_merge(video.spec_yield_to(named)).vrr_min_framerate == spec_precedence(
            base.vrr_min_framerate,
            video.vrr_min_framerate,
            named.vrr_min_framerate,
        ),
        base.spec_merge(named).spec_merge(video.spec_yield_to(named)).vrr_max_framerate == spec_precedence(
            base.vrr_max_framerate,
            video.vrr_max_framerate,
            named.vrr_max_framerate,
        ),
        base.spec_merge(named).spec_merge(video.spec_yield_to(named)).vrr_vesa_framerate == spec_precedence(
            base.vrr_vesa_framerate,
            video.vrr_vesa_framerate,
            named.vrr_vesa_framerate,
        ),
        base.spec_merge(named).spec_merge(video.spec_yield_to(named)).video_off == spec_precedence(
            base.video_off,
            video.video_off,
            named.video_off,
        ),
        base.spec_merge(named).spec_merge(video.spec_yield_to(named)).disable_autofire == spec_precedence(
            base.disable_autofire,
            video.disable_autofire,
            named.disable_autofire,
        ),
        base.spec_merge(named).spec_merge(video.spec_yield_to(named)).video_brightness == spec_precedence(
            base.video_brightness,
            video.video_brightness,
            named.video_brightness,
        ),
        base.spec_merge(named).spec_merge(video.spec_yield_to(named)).video_contrast == spec_precedence(
            base.video_contrast,
            video.video_contrast,
            named.video_contrast,
        ),
        base.spec_merge(named).spec_merge(video.spec_yield_to(named)).video_saturation == spec_precedence(
            base.video_saturation,
            video.video_saturation,
            named.video_saturation,
        ),
        base.spec_merge(named).spec_merge(video.spec_yield_to(named)).video_hue == spec_precedence(
            base.video_hue,
            video.video_hue,
            named.video_hue,
        ),
        base.spec_merge(named).spec_merge(video.spec_yield_to(named)).video_gain_offset == spec_precedence(
            base.video_gain_offset,
            video.video_gain_offset,
            named.video_gain_offset,
        ),
        base.spec_merge(named).spec_merge(video.spec_yield_to(named)).hdr == spec_precedence(
            base.hdr,
            video.hdr,
            named.hdr,
        ),
        base.spec_merge(named).spec_merge(video.spec_yield_to(named)).hdr_max_nits == spec_precedence(
            base.hdr_max_nits,
            video.hdr_max_nits,
            named.hdr_max_nits,
        ),
        base.spec_merge(named).spec_merge(video.spec_yield_to(named)).hdr_avg_nits == spec_precedence(
            base.hdr_avg_nits,
            video.hdr_avg_nits,
            named.hdr_avg_nits,
        ),
        video.spec_yield_to(MisterConfigView::spec_empty()) == video,
{
    assert(video.spec_yield_to(MisterConfigView::spec_empty()) =~~= video);
}

} // verus!
