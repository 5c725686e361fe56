use mister_fpga::video::edid::{
    get_edid_vmode_, hdmi_connected, is_edid_valid, parse_edid_vmode_, parse_preferred_timing,
    Edid, EdidError, EdidPoll, EdidPollStep, PreferredTiming,
};

const HEADER: [u8; 8] = [0x00, 0xFF, 0xFF, 0xFF, 0xFF, 0xFF, 0xFF, 0x00];

struct Timing {
    clock_10khz: u16,
    hact: u16,
    hblank: u16,
    hfp: u16,
    hsync: u16,
    vact: u16,
    vblank: u16,
    vfp: u16,
    vsync: u16,
    flags: u8,
}

fn block(t: &Timing) -> Vec<u8> {
    let mut e = vec![0u8; 256];
    e[..8].copy_from_slice(&HEADER);
    let x = &mut e[0x36..];
    x[0] = (t.clock_10khz & 0xff) as u8;
    x[1] = (t.clock_10khz >> 8) as u8;
    x[2] = (t.hact & 0xff) as u8;
    x[3] = (t.hblank & 0xff) as u8;
    x[4] = (((t.hact >> 8) & 0xf) << 4) as u8 | ((t.hblank >> 8) & 0xf) as u8;
    x[5] = (t.vact & 0xff) as u8;
    x[6] = (t.vblank & 0xff) as u8;
    x[7] = (((t.vact >> 8) & 0xf) << 4) as u8 | ((t.vblank >> 8) & 0xf) as u8;
    x[8] = (t.hfp & 0xff) as u8;
    x[9] = (t.hsync & 0xff) as u8;
    x[10] = ((t.vfp & 0xf) << 4) as u8 | (t.vsync & 0xf) as u8;
    x[11] = (((t.hfp >> 8) & 3) << 6) as u8
        | (((t.hsync >> 8) & 3) << 4) as u8
        | (((t.vfp >> 4) & 3) << 2) as u8
        | ((t.vsync >> 4) & 3) as u8;
    x[17] = t.flags;
    e
}

fn full_hd() -> Timing {
    Timing {
        clock_10khz: 14850,
        hact: 1920,
        hblank: 280,
        hfp: 88,
        hsync: 44,
        vact: 1080,
        vblank: 45,
        vfp: 4,
        vsync: 5,
        flags: 0x1e,
    }
}

#[test]
fn header_is_checked() {
    assert!(is_edid_valid(&HEADER));
    assert!(is_edid_valid(&block(&full_hd())));
    assert!(!is_edid_valid(&[0u8; 256]));
    assert!(!is_edid_valid(&[0x00, 0xFF, 0xFF, 0xFF, 0xFF, 0xFF, 0xFF, 0x01]));
    assert!(!is_edid_valid(&[0x00, 0xFF, 0xFF, 0xFF, 0xFF, 0xFF, 0xFF]));
    assert!(!is_edid_valid(&[]));
}

#[test]
fn hot_plug_state() {
    assert!(hdmi_connected(0x20));
    assert!(hdmi_connected(0xff));
    assert!(!hdmi_connected(0x00));
    assert!(!hdmi_connected(0xdf));
}

#[test]
fn edid_wraps_a_block() {
    let mut raw = [0u8; 256];
    raw[3] = 7;
    let e = Edid::new(raw);
    assert_eq!(e.as_slice().len(), 256);
    assert_eq!(e.as_slice()[3], 7);
    assert_eq!(e.into_inner(), raw);
}

#[test]
fn preferred_timing_of_full_hd() {
    let t = parse_preferred_timing(&block(&full_hd())).unwrap();
    assert_eq!(
        t,
        PreferredTiming {
            pixel_clock: 148_500_000,
            hact: 1920,
            hblank: 280,
            hfp: 88,
            hsync: 44,
            vact: 1080,
            vblank: 45,
            vfp: 4,
            vsync: 5,
            interlaced: false,
        }
    );
}

#[test]
fn preferred_timing_unpacks_the_high_bits() {
    let t = Timing {
        clock_10khz: 65535,
        hact: 4095,
        hblank: 4094,
        hfp: 1023,
        hsync: 1022,
        vact: 4093,
        vblank: 4092,
        vfp: 63,
        vsync: 62,
        flags: 0x80,
    };
    let p = parse_preferred_timing(&block(&t)).unwrap();
    assert_eq!(p.pixel_clock, 655_350_000);
    assert_eq!((p.hact, p.hblank, p.hfp, p.hsync), (4095, 4094, 1023, 1022));
    assert_eq!((p.vact, p.vblank, p.vfp, p.vsync), (4093, 4092, 63, 62));
    assert!(p.interlaced);
}

#[test]
fn pixel_clock_below_ten_mhz_is_refused() {
    let mut t = full_hd();
    t.clock_10khz = 999;
    assert_eq!(parse_preferred_timing(&block(&t)), Err(EdidError::PixelClockTooLow));
    assert_eq!(parse_edid_vmode_(false, &block(&t)).unwrap_err(), EdidError::PixelClockTooLow);
    t.clock_10khz = 0;
    assert_eq!(parse_preferred_timing(&block(&t)), Err(EdidError::PixelClockTooLow));
    t.clock_10khz = 1000;
    assert_eq!(parse_preferred_timing(&block(&t)).unwrap().pixel_clock, 10_000_000);
}

#[test]
fn short_and_headless_blocks_are_refused() {
    let good = block(&full_hd());
    assert_eq!(parse_preferred_timing(&good[..255]), Err(EdidError::Truncated));
    assert_eq!(parse_preferred_timing(&[]), Err(EdidError::Truncated));
    let mut bad = good.clone();
    bad[0] = 1;
    assert_eq!(parse_preferred_timing(&bad), Err(EdidError::InvalidHeader));
    assert_eq!(parse_edid_vmode_(false, &bad).unwrap_err(), EdidError::InvalidHeader);
    assert!(get_edid_vmode_(false, Some(&bad)).is_none());
}

#[test]
fn full_hd_block_gives_full_hd_at_sixty_hertz() {
    let v = parse_edid_vmode_(false, &block(&full_hd())).unwrap();
    assert_eq!(v.param.mode, 0);
    assert_eq!((v.param.hact, v.param.hfp, v.param.hs, v.param.hbp), (1920, 88, 44, 148));
    assert_eq!((v.param.vact, v.param.vfp, v.param.vs, v.param.vbp), (1080, 4, 5, 36));
    assert_eq!(v.param.rb, 2);
    assert_eq!(v.param.vic, 0);
    assert_eq!(v.f_pix, 148_500_000);
    assert_eq!(v.frame_rate(), Some(60_000));
    assert_eq!(v.param.pll, [4, 0x404, 3, 0x10000, 5, 0x20201, 9, 2, 8, 7, 7, 1]);
    let with_dvi = parse_edid_vmode_(true, &block(&full_hd())).unwrap();
    assert_eq!(with_dvi.param.wire_words(), v.param.wire_words());
}

#[test]
fn interlaced_mode_is_refused() {
    let mut t = full_hd();
    t.flags = 0x9e;
    assert_eq!(parse_edid_vmode_(false, &block(&t)).unwrap_err(), EdidError::Interlaced);
    assert!(parse_preferred_timing(&block(&t)).unwrap().interlaced);
}

#[test]
fn interlaced_is_told_before_bad_blanking() {
    let mut t = full_hd();
    t.flags = 0x80;
    t.hblank = 10;
    assert_eq!(parse_edid_vmode_(false, &block(&t)).unwrap_err(), EdidError::Interlaced);
}

#[test]
fn blanking_shorter_than_sync_and_porch_is_refused() {
    let mut t = full_hd();
    t.hblank = 131;
    assert_eq!(parse_edid_vmode_(false, &block(&t)).unwrap_err(), EdidError::InvalidBlanking);
    t.hblank = 132;
    assert_eq!(parse_edid_vmode_(false, &block(&t)).unwrap().param.hbp, 0);
    let mut t = full_hd();
    t.vblank = 8;
    assert_eq!(parse_edid_vmode_(false, &block(&t)).unwrap_err(), EdidError::InvalidBlanking);
}

#[test]
fn too_fast_2048_by_1536_becomes_the_safe_mode() {
    let t = Timing {
        clock_10khz: 26_000,
        hact: 2048,
        hblank: 300,
        hfp: 100,
        hsync: 100,
        vact: 1536,
        vblank: 50,
        vfp: 10,
        vsync: 10,
        flags: 0,
    };
    let v = parse_edid_vmode_(false, &block(&t)).unwrap();
    assert_eq!(v.param.mode, 13);
    assert_eq!((v.param.hact, v.param.hfp, v.param.hs, v.param.hbp), (2048, 48, 32, 80));
    assert_eq!((v.param.vact, v.param.vfp, v.param.vs, v.param.vbp), (1536, 2, 4, 38));
    assert_eq!(v.param.vic, 0);
    assert_eq!(v.param.rb, 2);
    assert_eq!(v.f_pix, 209_318_000);
    assert_eq!(v.param.pll, [4, 0x404, 3, 0x10000, 5, 0x101, 9, 2, 8, 7, 7, 1]);
}

#[test]
fn too_fast_mode_above_sixty_hertz_is_reduced_to_sixty() {
    // 1920x1080 at 120 Hz: 2200 x 1125 x 120 = 297 MHz.
    let mut t = full_hd();
    t.clock_10khz = 29_700;
    let v = parse_edid_vmode_(false, &block(&t)).unwrap();
    assert_eq!(v.f_pix, 148_500_000);
    assert_eq!(v.frame_rate(), Some(60_000));
    assert_eq!(v.param.hact, 1920);
    assert_eq!(v.param.rb, 2);
}

#[test]
fn too_fast_mode_that_is_too_fast_at_sixty_hertz_is_refused() {
    // 2560x1600 with 4000 x 1700 total at 100 Hz: 680 MHz, and 408 MHz at 60 Hz.
    let t = Timing {
        clock_10khz: 65_000,
        hact: 2560,
        hblank: 1440,
        hfp: 100,
        hsync: 100,
        vact: 1600,
        vblank: 100,
        vfp: 10,
        vsync: 10,
        flags: 0,
    };
    assert_eq!(parse_edid_vmode_(false, &block(&t)).unwrap_err(), EdidError::PixelRateTooHigh);
}

#[test]
fn too_fast_mode_at_sixty_hertz_or_less_is_refused() {
    // 4000 x 1000 total at 55 Hz: 220 MHz.
    let t = Timing {
        clock_10khz: 22_000,
        hact: 3000,
        hblank: 1000,
        hfp: 100,
        hsync: 100,
        vact: 900,
        vblank: 100,
        vfp: 10,
        vsync: 10,
        flags: 0,
    };
    assert_eq!(parse_edid_vmode_(false, &block(&t)).unwrap_err(), EdidError::FrameRateTooHigh);
}

#[test]
fn too_fast_mode_without_pixels_is_refused() {
    let t = Timing {
        clock_10khz: 30_000,
        hact: 0,
        hblank: 0,
        hfp: 0,
        hsync: 0,
        vact: 0,
        vblank: 0,
        vfp: 0,
        vsync: 0,
        flags: 0,
    };
    assert_eq!(parse_edid_vmode_(false, &block(&t)).unwrap_err(), EdidError::EmptyFrame);
}

#[test]
fn pixel_clock_of_exactly_210_mhz_is_taken() {
    let mut t = full_hd();
    t.clock_10khz = 21_000;
    let v = parse_edid_vmode_(false, &block(&t)).unwrap();
    assert_eq!(v.f_pix, 210_000_000);
    t.clock_10khz = 21_001;
    let v = parse_edid_vmode_(false, &block(&t)).unwrap();
    assert_eq!(v.f_pix, 148_500_000);
}

#[test]
fn mode_wider_than_2048_is_not_taken_from_the_display() {
    let mut t = full_hd();
    t.hact = 2049;
    let b = block(&t);
    assert!(parse_edid_vmode_(false, &b).is_ok());
    assert!(get_edid_vmode_(false, Some(&b)).is_none());
    t.hact = 2048;
    let b = block(&t);
    assert_eq!(get_edid_vmode_(false, Some(&b)).unwrap().param.hact, 2048);
    assert!(get_edid_vmode_(false, None).is_none());
}

#[test]
fn error_messages() {
    assert_eq!(
        EdidError::Interlaced.message(),
        "EDID: preferred mode is interlaced. Fall back to default video mode."
    );
    assert_eq!(
        EdidError::PixelRateTooHigh.message(),
        "EDID: Pixel rate too high, falling back to default video mode."
    );
    assert_eq!(
        EdidError::FrameRateTooHigh.message(),
        "EDID: Frame rate too high. Falling back to default video mode."
    );
}

#[test]
fn poll_accepts_a_valid_block_at_once() {
    let mut poll = EdidPoll::new();
    assert_eq!(poll.on_block(&block(&full_hd())), EdidPollStep::Accept);
}

#[test]
fn poll_gives_up_after_twenty_reads() {
    let mut poll = EdidPoll::new();
    let bad = [0u8; 256];
    for _ in 0..19 {
        assert_eq!(poll.on_block(&bad), EdidPollStep::Retry { wait_ms: 100 });
    }
    assert_eq!(poll.on_block(&bad), EdidPollStep::GiveUp);
    assert_eq!(poll.on_block(&bad), EdidPollStep::GiveUp);
}

#[test]
fn poll_accepts_after_retries() {
    let mut poll = EdidPoll::new();
    let bad = [0u8; 256];
    assert_eq!(poll.on_block(&bad), EdidPollStep::Retry { wait_ms: 100 });
    assert_eq!(poll.on_block(&bad), EdidPollStep::Retry { wait_ms: 100 });
    assert_eq!(poll.on_block(&block(&full_hd())), EdidPollStep::Accept);
}
