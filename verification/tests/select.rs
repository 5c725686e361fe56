use mister_fpga::config::MisterConfig;
use mister_fpga::video::mode::{CustomVideoMode, DefaultVideoMode};
use mister_fpga::video::select::{
    hdmi_config_set_spare, hdmi_config_set_spd, needs_edid, parse_custom_video_mode,
    select_video_mode, SendStep,
};

fn full_hd_block() -> Vec<u8> {
    let mut e = vec![0u8; 256];
    e[..8].copy_from_slice(&[0x00, 0xFF, 0xFF, 0xFF, 0xFF, 0xFF, 0xFF, 0x00]);
    e[0x36..0x36 + 18].copy_from_slice(&[
        0x02, 0x3A, 0x80, 0x18, 0x71, 0x38, 0x2D, 0x40, 0x58, 0x2C, 0x45, 0x00, 0x00, 0x00, 0x00,
        0x00, 0x00, 0x1E,
    ]);
    e
}

fn same(a: &CustomVideoMode, b: &CustomVideoMode) -> bool {
    a.f_pix == b.f_pix && a.vrr == b.vrr && a.param.wire_words() == b.param.wire_words()
}

#[test]
fn unread_display_and_no_mode_string_give_640_by_480() {
    let options = MisterConfig::new();
    assert!(needs_edid(&options));
    let def = select_video_mode(&options, None).unwrap();
    let v = def.vmode_def.unwrap();
    assert!(def.vmode_pal.is_none());
    assert!(def.vmode_ntsc.is_none());
    assert_eq!(v.param.mode, 6);
    assert_eq!((v.param.hact, v.param.vact), (640, 480));
    assert_eq!(v.f_pix, 25_175_000);
    assert_eq!(v.frame_rate(), Some(59_940));
    assert!(same(&v, &CustomVideoMode::from(DefaultVideoMode::V640x480r60)));
}

#[test]
fn display_that_gives_no_mode_falls_back_to_640_by_480() {
    let options = MisterConfig::new();
    let v = select_video_mode(&options, Some(&[0u8; 256])).unwrap().vmode_def.unwrap();
    assert!(same(&v, &CustomVideoMode::from(DefaultVideoMode::V640x480r60)));
}

#[test]
fn full_hd_display_gives_full_hd_at_sixty_hertz() {
    let options = MisterConfig::new();
    let block = full_hd_block();
    let v = select_video_mode(&options, Some(&block)).unwrap().vmode_def.unwrap();
    assert_eq!(v.param.hact, 1920);
    assert_eq!(v.param.vact, 1080);
    let millihertz = v.frame_rate().unwrap();
    assert!(59_500 <= millihertz && millihertz <= 60_500);
    assert_eq!(millihertz, 60_000);
    assert_eq!(v.f_pix, 148_500_000);
}

#[test]
fn configured_mode_wins_over_the_display() {
    let mut options = MisterConfig::new();
    options.video_conf = Some("0".to_string());
    assert!(!needs_edid(&options));
    let block = full_hd_block();
    let v = select_video_mode(&options, Some(&block)).unwrap().vmode_def.unwrap();
    assert!(same(&v, &CustomVideoMode::from(DefaultVideoMode::V1280x720r60)));
}

#[test]
fn pal_or_ntsc_mode_string_keeps_the_display_unread() {
    let mut options = MisterConfig::new();
    options.video_conf_pal = Some("3".to_string());
    assert!(!needs_edid(&options));
    let block = full_hd_block();
    let v = select_video_mode(&options, Some(&block)).unwrap().vmode_def.unwrap();
    assert!(same(&v, &CustomVideoMode::from(DefaultVideoMode::V640x480r60)));
}

#[test]
fn direct_video_picks_one_of_four_modes() {
    let cases = [
        (false, false, DefaultVideoMode::Ntsc15K, 15),
        (false, true, DefaultVideoMode::Ntsc31K, 16),
        (true, false, DefaultVideoMode::Pal15k, 17),
        (true, true, DefaultVideoMode::Pal31k, 18),
    ];
    let block = full_hd_block();
    for (pal, doubler, mode, number) in cases {
        let mut options = MisterConfig::new();
        options.direct_video = Some(true);
        options.menu_pal = Some(pal);
        options.forced_scandoubler = Some(doubler);
        assert!(!needs_edid(&options));
        let v = select_video_mode(&options, Some(&block)).unwrap().vmode_def.unwrap();
        assert_eq!(v.param.mode, number);
        assert!(same(&v, &CustomVideoMode::from(mode)));
        let w = select_video_mode(&options, None).unwrap().vmode_def.unwrap();
        assert!(same(&v, &w));
    }
}

#[test]
fn direct_video_unset_flags_mean_ntsc_15k() {
    let mut options = MisterConfig::new();
    options.direct_video = Some(true);
    let v = select_video_mode(&options, None).unwrap().vmode_def.unwrap();
    assert_eq!(v.param.mode, 15);
    assert_eq!((v.param.hact, v.param.vact), (640, 240));
    assert_eq!(v.f_pix, 12_587_000);
    assert_eq!(v.param.pll, [4, 0xe0e, 3, 0x10000, 5, 0x23a39, 9, 2, 8, 7, 7, 0xf339c0eb]);
}

#[test]
fn mode_strings() {
    let m = |s: Option<&str>| parse_custom_video_mode(s).param.mode;
    assert_eq!(m(None), 6);
    assert_eq!(m(Some("")), 6);
    assert_eq!(m(Some("auto")), 6);
    assert_eq!(m(Some("6")), 6);
    assert_eq!(m(Some("0")), 0);
    assert_eq!(m(Some("8")), 8);
    assert_eq!(m(Some("14")), 14);
    assert_eq!(m(Some("18")), 18);
    assert_eq!(m(Some("008")), 8);
    assert_eq!(m(Some("19")), 6);
    assert_eq!(m(Some("99999999999999999999999")), 6);
    assert_eq!(m(Some("V1920x1080r60")), 8);
    assert_eq!(m(Some("Pal31k")), 18);
    assert_eq!(m(Some("1920,88,44,148,1080,4,5,36,148500")), 6);
    assert_eq!(m(Some("Auto")), 6);
    let v = parse_custom_video_mode(Some("8"));
    assert!(same(&v, &CustomVideoMode::from(DefaultVideoMode::V1920x1080r60)));
}

#[test]
fn send_without_direct_video_switches_packets_off_first() {
    let v = CustomVideoMode::from(DefaultVideoMode::V1280x720r60);
    let steps = v.send_to_core(false, true);
    assert_eq!(steps.len(), 3);
    assert!(matches!(steps[0], SendStep::HdmiSetSpd { enabled: false }));
    assert!(matches!(steps[1], SendStep::HdmiSetSpare { packet: false, enabled: false }));
    match steps[2] {
        SendStep::Transmit { vmode } => assert!(same(&vmode, &v)),
        _ => panic!("the last step transmits"),
    }
}

#[test]
fn send_with_direct_video_shrinks_the_porches() {
    let v = CustomVideoMode::from(DefaultVideoMode::Ntsc15K);
    assert!(v.can_shrink_porches());
    let steps = v.send_to_core(true, false);
    assert_eq!(steps.len(), 1);
    match steps[0] {
        SendStep::Transmit { vmode } => {
            // 640, 30, 60, 70 and 240, 4, 4, 14
            assert_eq!((vmode.param.hfp, vmode.param.hbp), (6, 3));
            assert_eq!(vmode.param.hact, 640 + 24 + 67);
            assert_eq!(vmode.param.hs, 60);
            assert_eq!((vmode.param.vfp, vmode.param.vbp), (2, 2));
            assert_eq!(vmode.param.vact, 240 + 2 + 12);
            assert_eq!(vmode.param.vs, 4);
            assert_eq!(vmode.param.h_total(), v.param.h_total());
            assert_eq!(vmode.param.v_total(), v.param.v_total());
            assert_eq!(vmode.frame_rate(), v.frame_rate());
            assert_eq!(vmode.param.pll, v.param.pll);
            assert_eq!(vmode.f_pix, v.f_pix);
        }
        _ => panic!("the last step transmits"),
    }
}

#[test]
fn porches_below_the_fixed_values_cannot_be_shrunk() {
    let mut v = CustomVideoMode::from(DefaultVideoMode::Ntsc15K);
    v.param.hfp = 5;
    assert!(!v.can_shrink_porches());
    v.param.hfp = 6;
    assert!(v.can_shrink_porches());
    v.param.vbp = 1;
    assert!(!v.can_shrink_porches());
    v.param.vbp = 2;
    v.param.hact = u32::MAX;
    v.param.hbp = 4;
    assert!(!v.can_shrink_porches());
    v.param.hbp = 3;
    assert!(v.can_shrink_porches());
}

#[test]
fn hdmi_packet_register() {
    assert_eq!(hdmi_config_set_spd(0x00, true), 0x40);
    assert_eq!(hdmi_config_set_spd(0xff, false), 0xbf);
    assert_eq!(hdmi_config_set_spd(0x41, true), 0x41);
    assert_eq!(hdmi_config_set_spd(0x03, false), 0x03);
    assert_eq!(hdmi_config_set_spare(0x00, false, true), 0x01);
    assert_eq!(hdmi_config_set_spare(0x00, true, true), 0x02);
    assert_eq!(hdmi_config_set_spare(0xff, false, false), 0xfe);
    assert_eq!(hdmi_config_set_spare(0xff, true, false), 0xfd);
}
