use mister_fpga::command_map::{CommandId, CommandMap};
use mister_fpga::config::json::{emit_texts, value_texts};
use mister_fpga::cores::manager::{
    framebuffer_output, CoreLaunchInfo, CoreManager, FramebufferOutput, TERMINAL_STATUS,
};
use mister_fpga::cores::model::{Core, MisterFpgaCore};
use mister_fpga::cores::savestate::{relay_save_state, Events};
use mister_fpga::cores::status::StatusBitMap;
use mister_fpga::system::{download_file_name, get_time_zone, listed_zone, time_zone_path};
use mister_fpga::text::{
    after_last, is_whitespace, skip_prefixes, starts_with, trim_char_range, trim_range,
};
use mister_fpga::ui::font::{FontSize, FontType};
use mister_fpga::ui::image::Position;
use mister_fpga::ui::settings::{DateTimeFormat, MenuStyleFontSize};
use mister_fpga::video::edid::hpd_reset_writes;
use mister_fpga::video::edid_info::{
    edid_version, standard_timings, EdidDate, StandardAspectRatio, StandardTiming,
};

#[test]
fn white_space_is_that_of_the_standard_library() {
    let mut c = 0u32;
    while c <= 0x10ffff {
        if let Some(ch) = char::from_u32(c) {
            assert_eq!(is_whitespace(ch), ch.is_whitespace(), "U+{:04X}", c);
        }
        c += 1;
    }
}

#[test]
fn trimming_is_that_of_the_standard_library() {
    for s in ["", " ", "a", " a ", "\t\na b\r\n", "\u{a0}x\u{3000}", "  ", "é ", " é"] {
        let n = s.chars().count();
        let (a, b) = trim_range(s, 0, n);
        let got: String = s.chars().skip(a).take(b - a).collect();
        assert_eq!(got, s.trim());
    }
    let (a, b) = trim_range(" ab cd ", 2, 5);
    assert_eq!((a, b), (2, 5));
    let (a, b) = trim_range(" ab cd ", 3, 7);
    assert_eq!((a, b), (4, 6));
    let (a, b) = trim_range("     ", 1, 4);
    assert_eq!((a, b), (4, 4));
}

#[test]
fn prefixes_and_characters() {
    assert!(starts_with("filename=x", 0, 10, "filename="));
    assert!(!starts_with("filename=x", 0, 8, "filename="));
    assert!(!starts_with("filename=x", 1, 10, "filename="));
    assert!(starts_with("abc", 1, 3, ""));
    assert!(starts_with("abc", 3, 3, ""));
    assert_eq!(skip_prefixes("ababx", 0, 5, "ab"), 4);
    assert_eq!(skip_prefixes("ababx", 0, 3, "ab"), 2);
    assert_eq!(skip_prefixes("ababx", 1, 5, "ab"), 1);
    assert_eq!(skip_prefixes("abab", 0, 4, "ab"), 4);
    assert_eq!(skip_prefixes("abab", 0, 4, ""), 0);
    assert_eq!(trim_char_range("\"\"a\"b\"", '"', 0, 6), (2, 5));
    assert_eq!(trim_char_range("\"\"\"", '"', 0, 3), (3, 3));
    assert_eq!(trim_char_range("abc", '"', 0, 3), (0, 3));
    assert_eq!(after_last("a/b/c", '/'), 4);
    assert_eq!(after_last("abc", '/'), 0);
    assert_eq!(after_last("abc/", '/'), 4);
    assert_eq!(after_last("", '/'), 0);
}

/// The same choice of a name, written with the string functions of the
/// standard library.
fn download_file_name_with_std(header: Option<&str>, url: &str) -> String {
    header
        .and_then(|header| {
            let parts: Vec<&str> = header.split(';').collect();
            parts.iter().find_map(|part| {
                if part.trim().starts_with("filename=") {
                    Some(part.trim_start_matches("filename=").trim_matches('"').to_string())
                } else {
                    None
                }
            })
        })
        .unwrap_or_else(|| url.split('/').next_back().unwrap().to_string())
}

#[test]
fn download_names_agree_with_the_standard_library() {
    let headers = [
        None,
        Some(""),
        Some("attachment"),
        Some("attachment; filename=\"a.rom\""),
        Some("attachment;filename=\"a.rom\""),
        Some("attachment;filename=a.rom"),
        Some("filename=a.rom; other"),
        Some("filename=filename=\"\"b\"\""),
        Some("attachment; filename=\"a.rom\"; filename=b"),
        Some("attachment;  filename=\"x y.bin\"  "),
        Some("attachment;filename="),
        Some("attachment;filename=\""),
        Some("attachment;\tfilename=q"),
        Some("name=x;FILENAME=y"),
        Some(";;filename=é.bin"),
        Some("a;b;c"),
    ];
    let urls = ["http://x/y/z.bin", "z.bin", "http://x/", "", "/", "a//b"];
    for header in headers {
        for url in urls {
            assert_eq!(
                download_file_name(header, url),
                download_file_name_with_std(header, url),
                "{:?} {:?}",
                header,
                url
            );
        }
    }
    assert_eq!(
        download_file_name(Some("attachment;filename=\"core.rbf\""), "http://h/dl?id=1"),
        "core.rbf"
    );
    assert_eq!(download_file_name(None, "http://h/cores/NES.rbf"), "NES.rbf");
}

#[test]
fn time_zones() {
    assert_eq!(time_zone_path("Europe/Paris"), "/usr/share/zoneinfo/posix/Europe/Paris");
    assert_eq!(
        get_time_zone("/usr/share/zoneinfo/posix/Europe/Paris"),
        Some("Europe/Paris".to_string())
    );
    assert_eq!(get_time_zone("/usr/share/zoneinfo/Europe/Paris"), None);
    assert_eq!(get_time_zone("/usr/share/zoneinfo/posix/"), Some("".to_string()));
    assert_eq!(get_time_zone(""), None);
    let root = "/usr/share/zoneinfo/posix/";
    for path in [
        "/usr/share/zoneinfo/posix/UTC",
        "/usr/share/zoneinfo/posix//America/New_York",
        "/usr/share/zoneinfo/posix/",
        "/usr/share/zoneinfo/posix//usr/share/zoneinfo/posix/X",
        "/usr/share/zoneinfo/posix/usr/share/zoneinfo/posix/X",
        "/elsewhere/UTC",
        "",
    ] {
        assert_eq!(listed_zone(path), path.trim_start_matches(root).trim_start_matches('/'));
        if path.starts_with(root) {
            assert_eq!(get_time_zone(path), Some(path.trim_start_matches(root).to_string()));
        } else {
            assert_eq!(get_time_zone(path), None);
        }
    }
}

#[test]
fn command_map_hands_out_ids_and_keeps_handlers() {
    let mut map: CommandMap<String> = CommandMap::new();
    let a = map.next_id();
    let b = map.next_id();
    assert_eq!(a.id(), 0);
    assert_eq!(b.id(), 1);
    assert_eq!(a, CommandId::from_id(0));
    assert!(map.get(a).is_none());
    map.insert(a, "first".to_string());
    map.insert(b, "second".to_string());
    assert_eq!(map.get(a), Some(&"first".to_string()));
    map.insert(a, "again".to_string());
    assert_eq!(map.get(a), Some(&"again".to_string()));
    assert_eq!(map.remove(&a), Some("again".to_string()));
    assert_eq!(map.remove(&a), None);
    assert!(map.get(a).is_none());
    assert_eq!(map.get(b), Some(&"second".to_string()));
    assert_eq!(map.next_id().id(), 2);
}

#[test]
fn words_in_any_case() {
    assert_eq!(DateTimeFormat::from_str("Default"), Some(DateTimeFormat::Default));
    assert_eq!(DateTimeFormat::from_str("short"), Some(DateTimeFormat::Short));
    assert_eq!(DateTimeFormat::from_str("timeOnly"), Some(DateTimeFormat::TimeOnly));
    assert_eq!(DateTimeFormat::from_str("TIME"), Some(DateTimeFormat::TimeOnly));
    assert_eq!(DateTimeFormat::from_str("hidden"), Some(DateTimeFormat::Hidden));
    assert_eq!(DateTimeFormat::from_str("Off"), Some(DateTimeFormat::Hidden));
    assert_eq!(DateTimeFormat::from_str("long"), None);
    assert_eq!(DateTimeFormat::from_lower("timeOnly"), None);
    assert_eq!(DateTimeFormat::TimeOnly.name(), "timeOnly");
    assert_eq!(DateTimeFormat::Default.name(), "default");
    assert_eq!(MenuStyleFontSize::from_str("SMALL"), Some(MenuStyleFontSize::Small));
    assert_eq!(MenuStyleFontSize::from_str("medium"), Some(MenuStyleFontSize::Medium));
    assert_eq!(MenuStyleFontSize::from_str("Large"), Some(MenuStyleFontSize::Large));
    assert_eq!(MenuStyleFontSize::from_str("huge"), None);
    assert_eq!(MenuStyleFontSize::from_lower("Large"), None);
    assert_eq!(MenuStyleFontSize::Large.name(), "large");
    assert_eq!(FontType::from_lower("Monospace").is_err(), true);
    assert_eq!(FontType::from_lower("monospace"), Ok(FontType::Monospace));
    assert_eq!(FontSize::from_lower("LARGE").is_err(), true);
    assert_eq!(Position::from_lower("Center"), None);
    assert_eq!(Position::from_lower("center"), Some(Position::Center));
    // a letter whose lower-case form is an ASCII letter
    assert_eq!(DateTimeFormat::from_str("\u{212a}"), None);
    assert_eq!(MenuStyleFontSize::from_str("SMA\u{2c60}L"), None);
}

#[test]
fn status_flags() {
    let mut m = StatusBitMap::new();
    m.set(1, true);
    m.set(127, true);
    let flags = m.to_flags();
    assert_eq!(flags.len(), 128);
    assert_eq!(flags.iter().map(|f| *f as u32).sum::<u32>(), 2);
    assert_eq!((flags[0], flags[1], flags[127]), (0, 1, 1));
    let back = StatusBitMap::from_flags(&flags);
    assert_eq!(back.to_flags(), flags);
    let short = StatusBitMap::from_flags(&[0, 7, 255]);
    assert_eq!(short.get_range(0, 8), 0b110);
    let long = StatusBitMap::from_flags(&[1u8; 200]);
    assert_eq!(long.get_range(96, 128), u32::MAX);
    assert_eq!(StatusBitMap::from_flags(&[]).to_flags(), vec![0u8; 128]);
}

#[test]
fn picture_goes_to_the_terminal_and_back() {
    let mut m = CoreManager::new();
    assert!(m.switch_picture(true).is_none());
    m.load_menu(Ok(Core::MenuCore(MisterFpgaCore::new("MENU")))).unwrap();
    m.set_range(0, 16, 0xffff).unwrap();
    let sent = m.switch_picture(true).unwrap();
    assert_eq!(sent.get_range(5, 8), TERMINAL_STATUS & 0b111);
    assert_eq!(m.read_status_bits().unwrap().get_range(0, 16), 0xff1f);
    m.set_range(5, 8, 0b111).unwrap();
    let sent = m.switch_picture(false).unwrap();
    assert_eq!(sent.get_range(5, 8), 0);
    let info = CoreLaunchInfo::rbf("/a.rbf");
    m.launch(&info, true, Ok(Core::MisterCore(MisterFpgaCore::new("NES")))).unwrap();
    assert!(m.switch_picture(true).is_none());
    assert_eq!(
        framebuffer_output(true),
        FramebufferOutput { n: 0, width: 640, height: 480, hact: 640, vact: 480, x_offset: 0, y_offset: 0 }
    );
    assert_eq!(framebuffer_output(false).n, 1);
}

#[test]
fn launch_options() {
    let files = vec![None, Some("/a".to_string()), None, Some("/b".to_string())];
    let info = CoreLaunchInfo::from_options("/c.rbf", Some("/g.rom"), &files);
    assert_eq!(info.program, "/c.rbf");
    assert_eq!(info.rom, Some("/g.rom".to_string()));
    let slots: Vec<(usize, &str)> = info.files.iter().map(|f| (f.slot, f.path.as_str())).collect();
    assert_eq!(slots, vec![(1, "/a"), (3, "/b")]);
    assert!(info.check(true).is_ok());
    let info = CoreLaunchInfo::from_options("/c.rbf", None, &vec![]);
    assert_eq!(info.rom, None);
    assert!(info.files.is_empty());
}

#[test]
fn events_by_name() {
    assert_eq!(Events::from_str("saveState"), Some(Events::SaveState));
    assert_eq!(Events::from_str("quit"), Some(Events::Quit));
    assert_eq!(Events::from_str("savestate"), None);
    assert_eq!(Events::SaveState.name(), "saveState");
    assert_eq!(Events::Quit.name(), "quit");
}

#[test]
fn save_state_requests_are_relayed() {
    let seen = std::cell::RefCell::new(Vec::new());
    let hook = |shot: Option<&[u8]>, slot: usize, state: &[u8]| -> Result<(), String> {
        seen.borrow_mut().push((shot.map(|s| s.to_vec()), slot, state.to_vec()));
        if slot == 9 {
            Err("no room".to_string())
        } else {
            Ok(())
        }
    };
    assert_eq!(relay_save_state(Some(&hook), Some(&[1, 2]), 3, &[4, 5, 6]), Ok(()));
    assert_eq!(relay_save_state(Some(&hook), None, 9, &[]), Err("no room".to_string()));
    assert_eq!(
        *seen.borrow(),
        vec![(Some(vec![1, 2]), 3, vec![4, 5, 6]), (None, 9, vec![])]
    );
    fn never(_: Option<&[u8]>, _: usize, _: &[u8]) -> Result<(), String> {
        Err("unused".to_string())
    }
    let none: Option<&fn(Option<&[u8]>, usize, &[u8]) -> Result<(), String>> = None;
    assert_eq!(relay_save_state(none, None, 0, &[1]), Ok(()));
    let f: fn(Option<&[u8]>, usize, &[u8]) -> Result<(), String> = never;
    assert_eq!(relay_save_state(Some(&f), None, 0, &[1]), Err("unused".to_string()));
}

#[test]
fn hot_plug_reset_sequence() {
    let writes = hpd_reset_writes();
    assert_eq!(writes.len(), 20);
    for pair in writes.chunks(2) {
        assert_eq!(pair, [(0xC9, 0x03), (0xC9, 0x13)]);
    }
}

#[test]
fn standard_timing_lines_follow_the_aspect_ratio() {
    let t = StandardTiming::from_parts(1920, StandardAspectRatio::R16x9, 60);
    assert_eq!((t.horizontal_addr_pixel_ct, t.vertical_addr_pixel_ct), (1920, 1080));
    assert_eq!(t.aspect_ratio, "16x9");
    assert_eq!(t.field_refresh_rate, 60);
    assert_eq!(StandardTiming::from_parts(1280, StandardAspectRatio::R16x10, 75).vertical_addr_pixel_ct, 800);
    assert_eq!(StandardTiming::from_parts(1024, StandardAspectRatio::R4x3, 60).vertical_addr_pixel_ct, 768);
    assert_eq!(StandardTiming::from_parts(1280, StandardAspectRatio::R5x4, 60).vertical_addr_pixel_ct, 1024);
    assert_eq!(StandardTiming::from_parts(1366, StandardAspectRatio::R16x9, 60).vertical_addr_pixel_ct, 768);
    assert_eq!(StandardTiming::from_parts(65535, StandardAspectRatio::R16x10, 60).vertical_addr_pixel_ct, 40959);
    assert_eq!(StandardTiming::from_parts(1280, StandardAspectRatio::R16x10, 1).aspect_ratio, "16x10");
    assert_eq!(StandardTiming::from_parts(1, StandardAspectRatio::R4x3, 1).aspect_ratio, "4x3");
    assert_eq!(StandardTiming::from_parts(1, StandardAspectRatio::R5x4, 1).aspect_ratio, "5x4");
}

#[test]
fn named_standard_timings_are_kept_in_order() {
    let a = (1920u16, StandardAspectRatio::R16x9, 60u8);
    let b = (1024u16, StandardAspectRatio::R4x3, 75u8);
    let list = standard_timings([None, Some(a), None, None, Some(b), None, None, None]);
    assert_eq!(list.len(), 2);
    assert_eq!((list[0].horizontal_addr_pixel_ct, list[0].vertical_addr_pixel_ct), (1920, 1080));
    assert_eq!((list[1].horizontal_addr_pixel_ct, list[1].field_refresh_rate), (1024, 75));
    assert!(standard_timings([None; 8]).is_empty());
    assert_eq!(standard_timings([Some(a); 8]).len(), 8);
}

#[test]
fn display_dates_and_versions() {
    assert_eq!(EdidDate::Manufacture { week: Some(28), year: 2016 }.to_string(), "2016-28");
    assert_eq!(EdidDate::Manufacture { week: None, year: 2016 }.to_string(), "2016-00");
    assert_eq!(EdidDate::Manufacture { week: Some(5), year: 990 }.to_string(), "0990-05");
    assert_eq!(EdidDate::Manufacture { week: Some(255), year: 65535 }.to_string(), "65535-255");
    assert_eq!(EdidDate::ModelYear(2020).to_string(), "2020");
    assert_eq!(EdidDate::ModelYear(7).to_string(), "0007");
    assert_eq!(EdidDate::ModelYear(0).to_string(), "0000");
    assert_eq!(edid_version(1, 4), "1.4");
    assert_eq!(edid_version(255, 0), "255.0");
}

#[test]
fn written_values() {
    let values = vec!["a".to_string(), "b\"c".to_string()];
    assert_eq!(value_texts(true, &values), values);
    assert_eq!(value_texts(false, &values), vec!["\"a\"".to_string(), "\"b\\\"c\"".to_string()]);
    let mut json = String::from("x");
    emit_texts(&mut json, "k", false, true, &vec!["1".to_string(), "2".to_string()]);
    assert_eq!(json, "x\"k\":1,");
    let mut json = String::new();
    emit_texts(&mut json, "k", true, false, &vec!["\"a\"".to_string(), "\"b\"".to_string()]);
    assert_eq!(json, "\"k\":[\"a\",\"b\"],");
    let mut json = String::new();
    emit_texts(&mut json, "k", true, true, &vec!["10".to_string(), "20".to_string()]);
    assert_eq!(json, "\"k\":[102],");
    let mut json = String::new();
    emit_texts(&mut json, "k", true, true, &vec![]);
    assert_eq!(json, "\"k\":],");
    let mut json = String::new();
    emit_texts(&mut json, "k", false, false, &vec![]);
    assert_eq!(json, "\"k\":,");
}
