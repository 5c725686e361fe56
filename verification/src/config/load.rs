//! Reading a configuration from the text of a configuration file.
//!
//! The text is turned into JSON, which a JSON reader then decodes. Numbers
//! are written as they stand, every other value as a string; some keys hold
//! lists; and `ypbpr` is another name for `vga_mode`.

use super::ini::{parse, spec_parse, Error};
use super::json::{spec_to_json, JsonRules, JsonRulesView};
use super::overrides::Config;
use super::{MisterConfig, MisterConfigView};
use vstd::prelude::*;

verus! {

/// Why a configuration was not read.
#[derive(Debug)]
pub enum ConfigError {
    /// The file could not be read; with what the system said.
    Io(String),
    /// The text is no configuration file.
    IniError(Error),
    /// The JSON could not be decoded; with what the decoder said.
    JsonError(String),
}

/// What the text of a configuration file gives.
#[derive(Debug)]
pub enum IniSource {
    /// The text is empty: the configuration that sets nothing.
    Empty(Config),
    /// The configuration as JSON text, to be decoded.
    Json(String),
}

/// The keys whose values are numbers and are written as they stand.
pub open spec fn spec_raw_keys() -> Seq<Seq<char>> {
    seq![
        "mouse_throttle"@,
        "video_info"@,
        "controller_info"@,
        "refresh_min"@,
        "refresh_max"@,
        "vscale_border"@,
        "bootcore_timeout"@,
        "osd_timeout"@,
        "spinner_throttle"@,
        "spinner_axis"@,
        "shmask_mode_default"@,
        "bt_auto_disconnect"@,
        "wheel_force"@,
        "wheel_range"@,
        "vrr_min_framerate"@,
        "vrr_max_framerate"@,
        "vrr_vesa_framerate"@,
        "video_off"@,
        "video_brightness"@,
        "video_contrast"@,
        "video_saturation"@,
        "video_hue"@,
        "hdr_max_nits"@,
        "hdr_avg_nits"@,
    ]
}

/// The keys that hold lists.
pub open spec fn spec_seq_keys() -> Seq<Seq<char>> {
    seq![
        "custom_aspect_ratio"@,
        "no_merge_vidpid"@,
        "player_controller"@,
        "player_1_controller"@,
        "player_2_controller"@,
        "player_3_controller"@,
        "player_4_controller"@,
        "player_5_controller"@,
        "player_6_controller"@,
        "controller_unique_mapping"@,
    ]
}

/// The rules by which the configuration file of the firmware is written as
/// JSON.
pub open spec fn spec_mister_rules() -> JsonRulesView {
    JsonRulesView {
        raw: spec_raw_keys(),
        seq: spec_seq_keys(),
        aliases: seq![("ypbpr"@, "vga_mode"@)],
    }
}

/// The rules by which the configuration file of the firmware is written as
/// JSON.
pub fn mister_rules() -> (r: JsonRules)
    ensures
        r@ == spec_mister_rules(),
{
    let mut raw: Vec<String> = Vec::new();
    raw.push(String::from_str("mouse_throttle"));
    raw.push(String::from_str("video_info"));
    raw.push(String::from_str("controller_info"));
    raw.push(String::from_str("refresh_min"));
    raw.push(String::from_str("refresh_max"));
    raw.push(String::from_str("vscale_border"));
    raw.push(String::from_str("bootcore_timeout"));
    raw.push(String::from_str("osd_timeout"));
    raw.push(String::from_str("spinner_throttle"));
    raw.push(String::from_str("spinner_axis"));
    raw.push(String::from_str("shmask_mode_default"));
    raw.push(String::from_str("bt_auto_disconnect"));
    raw.push(String::from_str("wheel_force"));
    raw.push(String::from_str("wheel_range"));
    raw.push(String::from_str("vrr_min_framerate"));
    raw.push(String::from_str("vrr_max_framerate"));
    raw.push(String::from_str("vrr_vesa_framerate"));
    raw.push(String::from_str("video_off"));
    raw.push(String::from_str("video_brightness"));
    raw.push(String::from_str("video_contrast"));
    raw.push(String::from_str("video_saturation"));
    raw.push(String::from_str("video_hue"));
    raw.push(String::from_str("hdr_max_nits"));
    raw.push(String::from_str("hdr_avg_nits"));
    assert(raw.deep_view() =~= spec_raw_keys());
    let mut seq: Vec<String> = Vec::new();
    seq.push(String::from_str("custom_aspect_ratio"));
    seq.push(String::from_str("no_merge_vidpid"));
    seq.push(String::from_str("player_controller"));
    seq.push(String::from_str("player_1_controller"));
    seq.push(String::from_str("player_2_controller"));
    seq.push(String::from_str("player_3_controller"));
    seq.push(String::from_str("player_4_controller"));
    seq.push(String::from_str("player_5_controller"));
    seq.push(String::from_str("player_6_controller"));
    seq.push(String::from_str("controller_unique_mapping"));
    assert(seq.deep_view() =~= spec_seq_keys());
    let mut aliases: Vec<(String, String)> = Vec::new();
    aliases.push((String::from_str("ypbpr"), String::from_str("vga_mode")));
    assert(aliases.deep_view() =~= seq![("ypbpr"@, "vga_mode"@)]);
    JsonRules { raw, seq, aliases }
}

/// What the text of a configuration file gives: for an empty text the
/// configuration that sets nothing, else the text as JSON, or the reason for
/// which the text is no configuration file.
pub open spec fn spec_from_ini(content: Seq<char>) -> Result<Option<Seq<char>>, Seq<char>> {
    if content.len() == 0 {
        Ok(None)
    } else {
        match spec_parse(content) {
            Ok(ini) => Ok(Some(spec_to_json(ini, spec_mister_rules()))),
            Err(message) => Err(message),
        }
    }
}

impl Config {
    /// Reads a configuration from the text of a configuration file, as far
    /// as the JSON that is to be decoded.
    pub fn from_ini(content: &str) -> (r: Result<IniSource, ConfigError>)
        ensures
            match r {
                Ok(IniSource::Empty(config)) => {
                    &&& spec_from_ini(content@) == Ok::<Option<Seq<char>>, Seq<char>>(None)
                    &&& config.wf()
                    &&& config@.mister == MisterConfigView::spec_empty()
                    &&& config@.overrides == Map::<Seq<char>, MisterConfigView>::empty()
                    &&& config@.applied_core == MisterConfigView::spec_empty()
                },
                Ok(IniSource::Json(json)) => spec_from_ini(content@) == Ok::<
                    Option<Seq<char>>,
                    Seq<char>,
                >(Some(json@)),
                Err(ConfigError::IniError(Error::ParseError(message))) => spec_from_ini(content@)
                    == Err::<Option<Seq<char>>, Seq<char>>(message@),
                Err(_) => false,
            },
    {
        if content.unicode_len() == 0 {
            return Ok(IniSource::Empty(Config::new(MisterConfig::new())));
        }
        match parse(content) {
            Ok(ini) => {
                let rules = mister_rules();
                Ok(IniSource::Json(ini.to_json_string(&rules)))
            },
            Err(e) => Err(ConfigError::IniError(e)),
        }
    }
}

} // verus!
