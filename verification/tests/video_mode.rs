use mister_fpga::video::mode::{CustomVideoMode, CustomVideoModeParam, DefaultVideoMode};

#[test]
fn default_mode_tables() {
    assert_eq!(DefaultVideoMode::V1280x720r60.v_param(), [1280, 110, 40, 220, 720, 5, 5, 20]);
    assert_eq!(DefaultVideoMode::V640x480r60.v_param(), [640, 16, 96, 48, 480, 10, 2, 33]);
    assert_eq!(DefaultVideoMode::Pal31k.v_param(), [640, 16, 96, 48, 576, 2, 4, 42]);
    assert_eq!(DefaultVideoMode::V1920x1080r60.f_pix(), 148_500_000);
    assert_eq!(DefaultVideoMode::V640x480r60.f_pix(), 25_175_000);
    assert_eq!(DefaultVideoMode::V1024x600r60.f_pix(), 48_960_000);
    assert_eq!(DefaultVideoMode::Ntsc15K.f_pix(), 12_587_000);
    assert_eq!(DefaultVideoMode::V1280x720r60.vic_mode(), 4);
    assert_eq!(DefaultVideoMode::V720x576r50.vic_mode(), 8);
    assert_eq!(DefaultVideoMode::V1920x1080r60.vic_mode(), 6);
    assert_eq!(DefaultVideoMode::V2048x1536r60.vic_mode(), 0);
}

#[test]
fn default_mode_numbers_round_trip() {
    for i in 0u8..19 {
        let mode = DefaultVideoMode::from_repr(i).unwrap();
        assert_eq!(mode.index(), i);
        assert_eq!(DefaultVideoMode::from_str(mode.name()), Some(mode));
    }
    assert_eq!(DefaultVideoMode::from_repr(19), None);
    assert_eq!(DefaultVideoMode::from_repr(255), None);
    assert_eq!(DefaultVideoMode::from_repr(6), Some(DefaultVideoMode::V640x480r60));
    assert_eq!(DefaultVideoMode::from_repr(15), Some(DefaultVideoMode::Ntsc15K));
}

#[test]
fn default_mode_names() {
    assert_eq!(DefaultVideoMode::from_str("V1920x1080r60"), Some(DefaultVideoMode::V1920x1080r60));
    assert_eq!(DefaultVideoMode::from_str("Pal15k"), Some(DefaultVideoMode::Pal15k));
    assert_eq!(DefaultVideoMode::from_str("Ntsc31K"), Some(DefaultVideoMode::Ntsc31K));
    assert_eq!(DefaultVideoMode::from_str("pal15k"), None);
    assert_eq!(DefaultVideoMode::from_str(""), None);
    assert_eq!(DefaultVideoMode::V2560x1440r60.name(), "V2560x1440r60");
}

#[test]
fn param_from_mode() {
    let p = CustomVideoModeParam::from(DefaultVideoMode::V1920x1080r60);
    assert_eq!(p.mode, 8);
    assert_eq!((p.hact, p.hfp, p.hs, p.hbp), (1920, 88, 44, 148));
    assert_eq!((p.vact, p.vfp, p.vs, p.vbp), (1080, 4, 5, 36));
    assert_eq!(p.pll, [0; 12]);
    assert_eq!((p.hpol, p.vpol, p.vic, p.rb, p.pr), (0, 0, 0, 0, 0));
    assert_eq!(p.h_total(), 2200);
    assert_eq!(p.v_total(), 1125);
    assert_eq!(p.total_pixels(), 2_475_000);
}

#[test]
fn mode_from_default_mode_has_its_pll_set() {
    let v = CustomVideoMode::from(DefaultVideoMode::V640x480r60);
    assert_eq!(v.f_pix, 25_175_000);
    assert!(!v.vrr);
    assert_eq!(v.param.pll, [4, 0x404, 3, 0x10000, 5, 0x808, 9, 2, 8, 7, 7, 1]);
    assert_eq!(v.param.hact, 640);
    let w = CustomVideoMode::from(DefaultVideoMode::V720x480r60);
    assert_eq!(w.param.pll, [4, 0x606, 3, 0x10000, 5, 0xc0c, 9, 2, 8, 7, 7, 0xf5c28f5c]);
}

#[test]
fn set_pll_twice_is_set_pll_once() {
    let mut a = CustomVideoMode::from(DefaultVideoMode::V1280x1024r60);
    a.set_pll(133_000_000);
    let once = a;
    a.set_pll(133_000_000);
    assert_eq!(a.f_pix, once.f_pix);
    assert_eq!(a.vrr, once.vrr);
    assert_eq!(a.param.wire_words(), once.param.wire_words());
    assert_eq!(a.f_pix, 133_000_000);
    assert_eq!(a.param.pll, [4, 0x20807, 3, 0x10000, 5, 0x303, 9, 2, 8, 7, 7, 0xf5c28f5c]);
    assert_eq!(a.param.hact, 1280);
}

#[test]
fn frame_rate_is_pixel_clock_over_total_pixels() {
    let v = CustomVideoMode::from(DefaultVideoMode::V1920x1080r60);
    assert_eq!(v.frame_rate(), Some(60_000));
    let v = CustomVideoMode::from(DefaultVideoMode::V1920x1080r50);
    assert_eq!(v.frame_rate(), Some(50_000));
    let v = CustomVideoMode::from(DefaultVideoMode::V640x480r60);
    assert_eq!(v.frame_rate(), Some(59_940));
    let mut v = v;
    v.set_pll(50_350_000);
    assert_eq!(v.frame_rate(), Some(119_880));
}

#[test]
fn frame_rate_of_an_empty_frame_is_none() {
    let v = CustomVideoMode::default();
    assert_eq!(v.frame_rate(), None);
    let mut v = CustomVideoMode::default();
    v.param.hact = 100;
    v.f_pix = 1000;
    assert_eq!(v.frame_rate(), None);
}

#[test]
fn frame_rate_of_the_largest_frame() {
    let mut v = CustomVideoMode::default();
    v.param.hact = u32::MAX;
    v.param.hfp = u32::MAX;
    v.param.hs = u32::MAX;
    v.param.hbp = u32::MAX;
    v.param.vact = u32::MAX;
    v.param.vfp = u32::MAX;
    v.param.vs = u32::MAX;
    v.param.vbp = u32::MAX;
    v.f_pix = u32::MAX;
    assert_eq!(v.param.total_pixels(), (4 * (u32::MAX as u128)) * (4 * (u32::MAX as u128)));
    assert_eq!(v.frame_rate(), Some(0));
}

#[test]
fn wire_words_are_in_field_order() {
    let mut p = CustomVideoModeParam::from(DefaultVideoMode::V800x600r60);
    p.pll = [10, 11, 12, 13, 14, 15, 16, 17, 18, 19, 20, 21];
    p.hpol = 31;
    p.vpol = 32;
    p.vic = 33;
    p.rb = 34;
    p.pr = 35;
    assert_eq!(
        p.wire_words(),
        vec![
            5, 800, 40, 128, 88, 600, 1, 4, 23, 10, 11, 12, 13, 14, 15, 16, 17, 18, 19, 20, 21,
            31, 32, 33, 34, 35
        ]
    );
}

#[test]
fn default_descriptor_is_all_zero() {
    let v = CustomVideoMode::default();
    assert_eq!(v.f_pix, 0);
    assert!(!v.vrr);
    assert_eq!(v.param.wire_words(), vec![0u32; 26]);
}
