use mister_fpga::config::fb_size::FramebufferSizeConfig;
use mister_fpga::config::overrides::Config;
use mister_fpga::config::resolution::{Resolution, VideoResolutionString};
use mister_fpga::config::validate::{
    bootcore_timeout, controller_info, osd_timeout, video_info, video_off, ValidationError,
};
use mister_fpga::config::vsync_adjust::VsyncAdjustConfig;
use mister_fpga::config::MisterConfig;

fn strings(v: &[&str]) -> Vec<String> {
    v.iter().map(|s| s.to_string()).collect()
}

#[test]
fn new_section_sets_nothing() {
    let c = MisterConfig::new();
    assert_eq!(c.video_conf, None);
    assert_eq!(c.direct_video, None);
    assert_eq!(c.bootscreen, None);
    assert!(c.no_merge_vidpid.is_empty());
    assert!(c.player_controller.is_empty());
    assert!(!c.direct_video());
    assert!(!c.menu_pal());
    assert!(!c.forced_scandoubler());
    assert_eq!(c.dvi_mode_raw(), None);
}

#[test]
fn defaults_fill_what_is_unset() {
    let c = MisterConfig::new_defaults();
    assert_eq!(c.bootscreen, Some(true));
    assert_eq!(c.fb_terminal, Some(true));
    assert_eq!(c.controller_info, Some(6));
    assert_eq!(c.browse_expand, Some(true));
    assert_eq!(c.logo, Some(true));
    assert_eq!(c.rumble, Some(true));
    assert_eq!(c.wheel_force, Some(50));
    assert_eq!(c.hdr_avg_nits, Some(250));
    assert_eq!(c.hdr_max_nits, Some(1000));
    assert_eq!(c.video_brightness, Some(50));
    assert_eq!(c.video_contrast, Some(50));
    assert_eq!(c.video_saturation, Some(100));
    assert_eq!(c.video_hue, Some(0));
    assert_eq!(c.video_conf, Some("6".to_string()));
    assert_eq!(c.direct_video, None);
    assert_eq!(c.video_info, None);
}

#[test]
fn defaults_keep_what_is_set() {
    let mut c = MisterConfig::new();
    c.video_conf = Some("8".to_string());
    c.wheel_force = Some(10);
    c.logo = Some(false);
    c.set_defaults();
    assert_eq!(c.video_conf, Some("8".to_string()));
    assert_eq!(c.wheel_force, Some(10));
    assert_eq!(c.logo, Some(false));
    assert_eq!(c.rumble, Some(true));
}

#[test]
fn merge_overwrites_only_what_the_override_sets() {
    let mut base = MisterConfig::new();
    base.video_conf = Some("6".to_string());
    base.direct_video = Some(false);
    base.wheel_range = Some(900);
    base.font = Some("a.pf".to_string());
    let mut over = MisterConfig::new();
    over.video_conf = Some("8".to_string());
    over.menu_pal = Some(true);
    base.merge(over);
    assert_eq!(base.video_conf, Some("8".to_string()));
    assert_eq!(base.menu_pal, Some(true));
    assert_eq!(base.direct_video, Some(false));
    assert_eq!(base.wheel_range, Some(900));
    assert_eq!(base.font, Some("a.pf".to_string()));
    assert_eq!(base.vga_scaler, None);
}

#[test]
fn merge_appends_lists() {
    let mut base = MisterConfig::new();
    base.no_merge_vidpid = vec![1, 2];
    base.player_1_controller = strings(&["a"]);
    base.player_controller = vec![strings(&["x"])];
    let mut over = MisterConfig::new();
    over.no_merge_vidpid = vec![3];
    over.player_1_controller = strings(&["b", "c"]);
    over.player_controller = vec![strings(&["y", "z"])];
    over.controller_unique_mapping = vec![9];
    base.merge(over);
    assert_eq!(base.no_merge_vidpid, vec![1, 2, 3]);
    assert_eq!(base.player_1_controller, strings(&["a", "b", "c"]));
    assert_eq!(base.player_controller, vec![strings(&["x"]), strings(&["y", "z"])]);
    assert_eq!(base.controller_unique_mapping, vec![9]);
}

#[test]
fn merge_is_associative() {
    let make = |conf: Option<&str>, pal: Option<bool>, ids: Vec<u32>| {
        let mut c = MisterConfig::new();
        c.video_conf = conf.map(|s| s.to_string());
        c.menu_pal = pal;
        c.no_merge_vidpid = ids;
        c
    };
    let a = || make(Some("1"), None, vec![1]);
    let b = || make(None, Some(true), vec![2]);
    let c = || make(Some("3"), Some(false), vec![3]);
    let mut left = a();
    left.merge(b());
    left.merge(c());
    let mut bc = b();
    bc.merge(c());
    let mut right = a();
    right.merge(bc);
    assert_eq!(left.video_conf, right.video_conf);
    assert_eq!(left.menu_pal, right.menu_pal);
    assert_eq!(left.no_merge_vidpid, right.no_merge_vidpid);
    assert_eq!(left.video_conf, Some("3".to_string()));
    assert_eq!(left.menu_pal, Some(false));
    assert_eq!(left.no_merge_vidpid, vec![1, 2, 3]);
}

#[test]
fn duplicate_copies_every_field() {
    let mut c = MisterConfig::new_defaults();
    c.player_controller = vec![strings(&["x"])];
    c.fb_size = Some(FramebufferSizeConfig::HalfSize);
    c.spinner_throttle = Some(-5);
    let d = c.duplicate();
    assert_eq!(d.video_conf, c.video_conf);
    assert_eq!(d.player_controller, c.player_controller);
    assert_eq!(d.fb_size, Some(FramebufferSizeConfig::HalfSize));
    assert_eq!(d.spinner_throttle, Some(-5));
    assert_eq!(d.hdr_max_nits, Some(1000));
}

#[test]
fn player_controller_falls_back_to_the_players() {
    let mut c = MisterConfig::new();
    assert!(c.player_controller().is_empty());
    c.player_2_controller = strings(&["two"]);
    c.player_5_controller = strings(&["five", "5"]);
    assert_eq!(c.player_controller(), vec![strings(&["two"]), strings(&["five", "5"])]);
    c.player_controller = vec![strings(&["all"])];
    assert_eq!(c.player_controller(), vec![strings(&["all"])]);
}

#[test]
fn getters_have_defaults() {
    let mut c = MisterConfig::new();
    assert_eq!(c.hdr_max_nits(), 1000);
    assert_eq!(c.hdr_avg_nits(), 250);
    assert!(!c.hdmi_game_mode());
    assert!(!c.dvi_mode());
    assert!(!c.hdmi_audio_96k());
    assert_eq!(c.video_brightness(), 0);
    assert_eq!(c.video_contrast(), 100);
    assert_eq!(c.video_saturation(), 100);
    c.video_brightness = Some(0);
    c.video_contrast = Some(100);
    c.video_saturation = Some(30);
    assert_eq!(c.video_brightness(), -50);
    assert_eq!(c.video_contrast(), 200);
    assert_eq!(c.video_saturation(), 30);
    c.video_brightness = Some(255);
    c.video_contrast = Some(101);
    c.video_saturation = Some(200);
    assert_eq!(c.video_brightness(), 50);
    assert_eq!(c.video_contrast(), 200);
    assert_eq!(c.video_saturation(), 100);
    c.hdr_max_nits = Some(400);
    assert_eq!(c.hdr_max_nits(), 400);
}

#[test]
fn vsync_adjust_is_off_with_direct_video() {
    let mut c = MisterConfig::new();
    assert_eq!(c.vsync_adjust(), VsyncAdjustConfig::Disabled);
    c.vsync_adjust = Some(VsyncAdjustConfig::LowLatency);
    assert_eq!(c.vsync_adjust(), VsyncAdjustConfig::LowLatency);
    c.direct_video = Some(true);
    assert_eq!(c.vsync_adjust(), VsyncAdjustConfig::Disabled);
    c.direct_video = Some(false);
    assert_eq!(c.vsync_adjust(), VsyncAdjustConfig::LowLatency);
}

#[test]
fn framebuffer_size_merges_unless_default() {
    let mut s = FramebufferSizeConfig::HalfSize;
    s.merge(FramebufferSizeConfig::Automatic);
    assert_eq!(s, FramebufferSizeConfig::HalfSize);
    s.merge(FramebufferSizeConfig::QuarterSize);
    assert_eq!(s, FramebufferSizeConfig::QuarterSize);
    assert_eq!(FramebufferSizeConfig::default(), FramebufferSizeConfig::Automatic);
    assert_eq!(FramebufferSizeConfig::QuarterSize.code(), 4);
    assert_eq!(FramebufferSizeConfig::from_code(2), Some(FramebufferSizeConfig::HalfSize));
    assert_eq!(FramebufferSizeConfig::from_code(3), None);
    assert_eq!(FramebufferSizeConfig::from_str("full_size"), Some(FramebufferSizeConfig::FullSize));
    assert_eq!(FramebufferSizeConfig::from_str("4"), Some(FramebufferSizeConfig::QuarterSize));
    assert_eq!(FramebufferSizeConfig::from_str("0"), Some(FramebufferSizeConfig::Automatic));
    assert_eq!(FramebufferSizeConfig::from_str("3"), None);
    assert_eq!(FramebufferSizeConfig::from_str("FullSize"), None);
}

#[test]
fn ranges_of_seconds() {
    assert!(video_info(1).is_ok());
    assert!(video_info(10).is_ok());
    assert_eq!(video_info(0), Err(ValidationError::VideoInfo));
    assert_eq!(video_info(11), Err(ValidationError::VideoInfo));
    assert!(controller_info(0).is_ok());
    assert!(controller_info(10).is_ok());
    assert_eq!(controller_info(11), Err(ValidationError::ControllerInfo));
    assert!(osd_timeout(5).is_ok());
    assert!(osd_timeout(3600).is_ok());
    assert_eq!(osd_timeout(4), Err(ValidationError::OsdTimeout));
    assert_eq!(osd_timeout(3601), Err(ValidationError::OsdTimeout));
    assert!(bootcore_timeout(30).is_ok());
    assert_eq!(bootcore_timeout(31), Err(ValidationError::BootcoreTimeout));
    assert!(video_off(3600).is_ok());
    assert_eq!(video_off(3601), Err(ValidationError::VideoOff));
    assert_eq!(ValidationError::VideoOff.message(), "video_off must be 3600 or less.");
}

#[test]
fn validate_names_the_first_field_out_of_range() {
    let mut c = MisterConfig::new();
    assert!(c.validate().is_ok());
    assert!(MisterConfig::new_defaults().validate().is_ok());
    c.hdr_avg_nits = Some(99);
    assert_eq!(c.validate(), Err(ValidationError::HdrAvgNits));
    c.video_hue = Some(361);
    assert_eq!(c.validate(), Err(ValidationError::VideoHue));
    c.spinner_throttle = Some(-10_001);
    assert_eq!(c.validate(), Err(ValidationError::SpinnerThrottle));
    c.video_info = Some(0);
    assert_eq!(c.validate(), Err(ValidationError::VideoInfo));
    c.mouse_throttle = Some(101);
    assert_eq!(c.validate(), Err(ValidationError::MouseThrottle));
    c.mouse_throttle = Some(100);
    c.video_info = Some(1);
    c.spinner_throttle = Some(-10_000);
    c.video_hue = Some(360);
    c.hdr_avg_nits = Some(100);
    assert!(c.validate().is_ok());
}

#[test]
fn resolution_in_words() {
    assert_eq!(Resolution { width: 320, height: 240 }.to_string(), "320x240");
    assert_eq!(Resolution { width: 0, height: 7 }.to_string(), "0x7");
    assert_eq!(
        Resolution { width: u64::MAX, height: 10 }.to_string(),
        "18446744073709551615x10"
    );
    let s = VideoResolutionString::new(Resolution { width: 1920, height: 1080 });
    assert_eq!(s.to_string(), "video=1920x1080");
    let s = VideoResolutionString {
        resolution: Resolution { width: 123, height: 456 },
        refresh: Some(78),
    };
    assert_eq!(s.to_string(), "video=123x456@78");
}

fn section(conf: Option<&str>, pal: Option<bool>) -> MisterConfig {
    let mut c = MisterConfig::new();
    c.video_conf = conf.map(|s| s.to_string());
    c.menu_pal = pal;
    c
}

#[test]
fn overrides_are_kept_by_name() {
    let mut c = Config::new(section(Some("6"), None));
    assert!(!c.has_override("NES"));
    c.set_override("NES", section(Some("1"), None));
    c.set_override("video=320x240", section(None, Some(true)));
    assert!(c.has_override("NES"));
    assert!(c.has_override("video=320x240"));
    assert!(!c.has_override("nes"));
    assert_eq!(c.get_override("NES").unwrap().video_conf, Some("1".to_string()));
    c.set_override("NES", section(Some("2"), None));
    assert_eq!(c.get_override("NES").unwrap().video_conf, Some("2".to_string()));
    assert!(c.get_override("SNES").is_none());
    assert_eq!(c.mister().video_conf, Some("6".to_string()));
}

#[test]
fn core_override_is_merged_by_name() {
    let mut c = Config::new(section(Some("6"), Some(false)));
    c.set_override("NES", section(Some("1"), None));
    c.merge_core_override("SNES");
    assert_eq!(c.mister().video_conf, Some("6".to_string()));
    c.merge_core_override("NES");
    assert_eq!(c.mister().video_conf, Some("1".to_string()));
    assert_eq!(c.mister().menu_pal, Some(false));
    assert!(c.has_override("NES"));
}

#[test]
fn video_override_is_merged_by_resolution() {
    let mut c = Config::new(section(Some("6"), None));
    c.set_override("video=320x240", section(Some("2"), Some(true)));
    c.merge_video_override(Resolution { width: 640, height: 480 });
    assert_eq!(c.mister().video_conf, Some("6".to_string()));
    c.merge_video_override(Resolution { width: 320, height: 240 });
    assert_eq!(c.mister().video_conf, Some("2".to_string()));
    assert_eq!(c.mister().menu_pal, Some(true));
}

#[test]
fn core_override_wins_over_resolution_override() {
    let mut c = Config::new(section(Some("6"), None));
    c.set_override("video=320x240", section(Some("2"), Some(true)));
    let mut core = section(Some("1"), None);
    core.wheel_force = Some(7);
    c.set_override("NES", core);
    c.apply_overrides("NES", Resolution { width: 320, height: 240 });
    let m = c.into_inner();
    assert_eq!(m.video_conf, Some("1".to_string()));
    assert_eq!(m.menu_pal, Some(true));
    assert_eq!(m.wheel_force, Some(7));
    assert_eq!(m.direct_video, None);
}

#[test]
fn absent_fields_of_an_override_erase_nothing() {
    let mut base = MisterConfig::new_defaults();
    base.font = Some("f".to_string());
    let mut c = Config::new(base);
    c.set_override("NES", MisterConfig::new());
    c.set_override("video=1x1", MisterConfig::new());
    c.apply_overrides("NES", Resolution { width: 1, height: 1 });
    let m = c.into_inner();
    assert_eq!(m.font, Some("f".to_string()));
    assert_eq!(m.video_conf, Some("6".to_string()));
    assert_eq!(m.hdr_max_nits, Some(1000));
    assert_eq!(m.direct_video, None);
}

#[test]
fn merging_configurations_merges_sections_of_the_same_name() {
    let mut a = Config::new(section(Some("6"), None));
    a.set_override("NES", section(Some("1"), None));
    a.set_override("GBA", section(Some("5"), None));
    let mut b = Config::new(section(None, Some(true)));
    b.set_override("NES", section(None, Some(true)));
    b.set_override("SNES", section(Some("3"), None));
    a.merge(b);
    assert_eq!(a.mister().video_conf, Some("6".to_string()));
    assert_eq!(a.mister().menu_pal, Some(true));
    let nes = a.get_override("NES").unwrap();
    assert_eq!(nes.video_conf, Some("1".to_string()));
    assert_eq!(nes.menu_pal, Some(true));
    assert_eq!(a.get_override("GBA").unwrap().video_conf, Some("5".to_string()));
    assert_eq!(a.get_override("SNES").unwrap().video_conf, Some("3".to_string()));
    assert!(a.get_override("MD").is_none());
}

#[test]
fn defaults_of_a_configuration() {
    let c = Config::defaults();
    assert!(!c.has_override("video=640x480"));
    assert_eq!(c.into_inner().video_conf, Some("6".to_string()));
}

#[test]
fn every_range_is_checked() {
    let cases: Vec<(fn(&mut MisterConfig), ValidationError, &str)> = vec![
        (|c| c.mouse_throttle = Some(101), ValidationError::MouseThrottle, "mouse_throttle must be 100 or less."),
        (|c| c.video_info = Some(11), ValidationError::VideoInfo, "video_info must be between 1 and 10."),
        (|c| c.controller_info = Some(11), ValidationError::ControllerInfo, "controller_info must be between 0 and 10."),
        (|c| c.vscale_border = Some(400), ValidationError::VscaleBorder, "vscale_border must be between 0 and 399."),
        (|c| c.bootcore_timeout = Some(31), ValidationError::BootcoreTimeout, "bootcore_timeout must be 30 or less."),
        (|c| c.osd_timeout = Some(4), ValidationError::OsdTimeout, "osd_timeout must be between 5 and 3600."),
        (|c| c.spinner_throttle = Some(10_001), ValidationError::SpinnerThrottle, "spinner_throttle must be between -10000 and 10000."),
        (|c| c.wheel_force = Some(101), ValidationError::WheelForce, "wheel_force must be between 0 and 100."),
        (|c| c.wheel_range = Some(1001), ValidationError::WheelRange, "wheel_range must be between 0 and 1000."),
        (|c| c.video_off = Some(3601), ValidationError::VideoOff, "video_off must be 3600 or less."),
        (|c| c.video_brightness = Some(101), ValidationError::VideoBrightness, "video_brightness must be between 0 and 100."),
        (|c| c.video_contrast = Some(101), ValidationError::VideoContrast, "video_contrast must be between 0 and 100."),
        (|c| c.video_saturation = Some(101), ValidationError::VideoSaturation, "video_saturation must be between 0 and 100."),
        (|c| c.video_hue = Some(361), ValidationError::VideoHue, "video_hue must be between 0 and 360."),
        (|c| c.hdr_max_nits = Some(10_001), ValidationError::HdrMaxNits, "hdr_max_nits must be between 100 and 10000."),
        (|c| c.hdr_avg_nits = Some(99), ValidationError::HdrAvgNits, "hdr_avg_nits must be between 100 and 10000."),
    ];
    for (set, error, message) in cases {
        let mut c = MisterConfig::new();
        set(&mut c);
        assert_eq!(c.validate(), Err(error));
        assert_eq!(error.message(), message);
    }
}

#[test]
fn core_override_wins_when_it_is_merged_first() {
    let mut c = Config::new(section(Some("6"), None));
    let mut video = section(Some("2"), Some(true));
    video.rumble = Some(false);
    video.no_merge_vidpid = vec![7];
    c.set_override("video=320x240", video);
    let mut core = section(Some("1"), None);
    core.wheel_force = Some(7);
    core.no_merge_vidpid = vec![9];
    c.set_override("NES", core);
    c.merge_core_override("NES");
    c.merge_video_override(Resolution { width: 320, height: 240 });
    let m = c.into_inner();
    // what the core sets stays, what only the resolution sets is taken
    assert_eq!(m.video_conf, Some("1".to_string()));
    assert_eq!(m.wheel_force, Some(7));
    assert_eq!(m.menu_pal, Some(true));
    assert_eq!(m.rumble, Some(false));
    assert_eq!(m.no_merge_vidpid, vec![9, 7]);
}

#[test]
fn both_orders_of_the_overrides_agree_on_every_field_set() {
    let build = || {
        let mut c = Config::new(section(Some("6"), Some(false)));
        let mut video = section(Some("2"), Some(true));
        video.logo = Some(false);
        c.set_override("video=640x480", video);
        let mut core = section(Some("1"), None);
        core.wheel_force = Some(7);
        c.set_override("SNES", core);
        c
    };
    let res = Resolution { width: 640, height: 480 };
    let mut a = build();
    a.merge_core_override("SNES");
    a.merge_video_override(res);
    let mut b = build();
    b.merge_video_override(res);
    b.merge_core_override("SNES");
    let mut d = build();
    d.apply_overrides("SNES", res);
    let (a, b, d) = (a.into_inner(), b.into_inner(), d.into_inner());
    for m in [&a, &b, &d] {
        assert_eq!(m.video_conf, Some("1".to_string()));
        assert_eq!(m.menu_pal, Some(true));
        assert_eq!(m.logo, Some(false));
        assert_eq!(m.wheel_force, Some(7));
        assert_eq!(m.direct_video, None);
    }
}

#[test]
fn every_core_override_that_was_merged_is_remembered() {
    let mut c = Config::new(MisterConfig::new());
    c.set_override("A", section(Some("1"), None));
    c.set_override("B", section(None, Some(false)));
    c.set_override("video=1x1", section(Some("9"), Some(true)));
    c.merge_core_override("A");
    c.merge_core_override("B");
    c.merge_core_override("missing");
    c.merge_video_override(Resolution { width: 1, height: 1 });
    let m = c.into_inner();
    assert_eq!(m.video_conf, Some("1".to_string()));
    assert_eq!(m.menu_pal, Some(false));
}

#[test]
fn a_section_gives_way_to_what_another_sets() {
    let mut video = section(Some("2"), Some(true));
    video.no_merge_vidpid = vec![1];
    let named = section(Some("1"), None);
    video.yield_to(&named);
    assert_eq!(video.video_conf, None);
    assert_eq!(video.menu_pal, Some(true));
    assert_eq!(video.no_merge_vidpid, vec![1]);
}
