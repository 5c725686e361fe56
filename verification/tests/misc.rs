use mister_fpga::net::{AddressFamily, NetworkInterface};
use mister_fpga::patch::{apply_hunks, hunks_fit, ips_patch, PatchError, PatchHunk};
use mister_fpga::paths::{
    core_root_path, join, sav_path, sav_root_path, savestates_path, savestates_root_path,
    screenshots_root,
};
use mister_fpga::text::{bytes_eq, find_char, parse_decimal, push_decimal, str_eq};
use mister_fpga::video::hexdump::hexdump;

#[test]
fn paths_under_the_configuration_root() {
    assert_eq!(savestates_path("/media/fat/1fpga", "NES"), "/media/fat/1fpga/savestates/NES");
    assert_eq!(sav_path("/media/fat/1fpga", "NES"), "/media/fat/1fpga/saves/NES");
    assert_eq!(savestates_root_path("/r/"), "/r/savestates");
    assert_eq!(sav_root_path("/r"), "/r/saves");
    assert_eq!(screenshots_root("/r"), "/r/screenshots");
    assert_eq!(core_root_path("/r"), "/r/cores");
    assert_eq!(sav_path("", "NES"), "saves/NES");
    assert_eq!(sav_path("/r", "/abs"), "/abs");
    assert_eq!(sav_path("/r", ""), "/r/saves/");
}

#[test]
fn join_is_the_join_of_unix_paths() {
    for (base, name) in [
        ("/a", "b"),
        ("/a/", "b"),
        ("", "b"),
        ("", ""),
        ("/a", ""),
        ("/a", "/b"),
        ("a", "b/c"),
        ("/", "x"),
        ("é", "ü"),
    ] {
        let expected = std::path::Path::new(base).join(name);
        assert_eq!(join(base, name), expected.to_str().unwrap());
    }
}

#[test]
fn hexdump_of_nothing_is_empty() {
    assert_eq!(hexdump(&[]), "");
}

#[test]
fn hexdump_lines() {
    assert_eq!(hexdump(b"AB"), "0000: 41 42   AB\n");
    let data: Vec<u8> = (0u8..20).collect();
    assert_eq!(
        hexdump(&data),
        "0000: 00 01 02 03 04 05 06 07 08 09 0a 0b 0c 0d 0e 0f   ................\n\
         0010: 10 11 12 13   ....\n"
    );
    assert_eq!(
        hexdump(b"Hello, world! ~\x7f\xff"),
        "0000: 48 65 6c 6c 6f 2c 20 77 6f 72 6c 64 21 20 7e 7f   Hello, world! ~.\n\
         0010: ff   .\n"
    );
}

#[test]
fn hexdump_offsets_grow_past_four_digits() {
    let data = vec![0x20u8; 0x10011];
    let dump = hexdump(&data);
    let lines: Vec<&str> = dump.lines().collect();
    assert_eq!(lines.len(), 0x1002);
    assert!(lines[0].starts_with("0000: 20 20 "));
    assert!(lines[0x100].starts_with("1000: "));
    assert!(lines[0xfff].starts_with("fff0: "));
    assert!(lines[0x1000].starts_with("10000: "));
    assert_eq!(lines[0x1001], "10010: 20    ");
}

fn ips(hunks: &[(u32, &[u8])], rle: &[(u32, u16, u8)]) -> Vec<u8> {
    let mut p = b"PATCH".to_vec();
    for (offset, bytes) in hunks {
        p.extend_from_slice(&offset.to_be_bytes()[1..]);
        p.extend_from_slice(&(bytes.len() as u16).to_be_bytes());
        p.extend_from_slice(bytes);
    }
    for (offset, len, byte) in rle {
        p.extend_from_slice(&offset.to_be_bytes()[1..]);
        p.extend_from_slice(&[0, 0]);
        p.extend_from_slice(&len.to_be_bytes());
        p.push(*byte);
    }
    p.extend_from_slice(b"EOF");
    p
}

#[test]
fn ips_patch_writes_the_hunks_in_order() {
    let mut rom = vec![0u8; 10];
    let patch = ips(&[(1, &[1, 2, 3]), (2, &[9]), (8, &[7, 7])], &[]);
    assert!(ips_patch(&mut rom, &patch).is_ok());
    assert_eq!(rom, vec![0, 1, 9, 3, 0, 0, 0, 0, 7, 7]);
}

#[test]
fn ips_patch_expands_run_length_hunks() {
    let mut rom = vec![1u8; 8];
    let patch = ips(&[], &[(2, 4, 0xaa)]);
    assert!(ips_patch(&mut rom, &patch).is_ok());
    assert_eq!(rom, vec![1, 1, 0xaa, 0xaa, 0xaa, 0xaa, 1, 1]);
}

#[test]
fn ips_patch_without_hunks_changes_nothing() {
    let mut rom = vec![5u8; 4];
    assert!(ips_patch(&mut rom, b"PATCHEOF").is_ok());
    assert_eq!(rom, vec![5u8; 4]);
}

#[test]
fn ips_patch_refuses_what_is_no_patch() {
    let mut rom = vec![5u8; 4];
    assert!(matches!(ips_patch(&mut rom, b"PATCH"), Err(PatchError::Parse(_))));
    assert!(matches!(ips_patch(&mut rom, b""), Err(PatchError::Parse(_))));
    assert!(matches!(ips_patch(&mut rom, b"patchEOF"), Err(PatchError::Parse(_))));
    assert_eq!(rom, vec![5u8; 4]);
}

#[test]
fn ips_patch_past_the_end_leaves_the_rom() {
    let mut rom = vec![0u8; 4];
    let patch = ips(&[(0, &[1]), (3, &[1, 2])], &[]);
    assert!(matches!(ips_patch(&mut rom, &patch), Err(PatchError::OutOfBounds)));
    assert_eq!(rom, vec![0u8; 4]);
    let patch = ips(&[(3, &[1])], &[]);
    assert!(ips_patch(&mut rom, &patch).is_ok());
    assert_eq!(rom, vec![0, 0, 0, 1]);
}

#[test]
fn hunks_are_applied_one_after_the_other() {
    let hunks = vec![
        PatchHunk { offset: 0, payload: vec![1, 1, 1] },
        PatchHunk { offset: 1, payload: vec![2] },
        PatchHunk { offset: 4, payload: vec![] },
    ];
    assert!(hunks_fit(&hunks, 4));
    assert!(hunks_fit(&hunks, 5));
    assert!(!hunks_fit(&hunks, 3));
    assert!(!hunks_fit(&hunks, 2));
    let mut rom = vec![0u8; 4];
    apply_hunks(&mut rom, &hunks);
    assert_eq!(rom, vec![1, 2, 1, 0]);
    assert!(!hunks_fit(&[PatchHunk { offset: usize::MAX, payload: vec![1] }], usize::MAX));
}

#[test]
fn network_interfaces() {
    let i = NetworkInterface::from_parts(
        true,
        true,
        vec!["IFF_UP".to_string()],
        "lo".to_string(),
        Some(AddressFamily::Inet),
        Some("127.0.0.1".to_string()),
        Some("255.0.0.0".to_string()),
    );
    assert_eq!(i.ty_, "Loopback");
    assert_eq!(i.family, Some("IPv4".to_string()));
    assert_eq!(i.address, Some("127.0.0.1".to_string()));
    assert_eq!(i.netmask, Some("255.0.0.0".to_string()));
    assert_eq!(i.name, "lo");
    assert_eq!(i.flags, vec!["IFF_UP".to_string()]);
    assert!(i.is_listed());
    let i = NetworkInterface::from_parts(
        false,
        true,
        vec![],
        "eth0".to_string(),
        Some(AddressFamily::Inet6),
        Some("::1".to_string()),
        None,
    );
    assert_eq!(i.ty_, "Up");
    assert_eq!(i.family, Some("IPv6".to_string()));
    let i = NetworkInterface::from_parts(
        false,
        false,
        vec![],
        "eth1".to_string(),
        Some(AddressFamily::Other),
        Some("x".to_string()),
        None,
    );
    assert_eq!(i.ty_, "Down");
    assert_eq!(i.family, None);
    assert_eq!(i.address, None);
    assert!(!i.is_listed());
    let i = NetworkInterface::from_parts(false, false, vec![], "w".to_string(), None, None, None);
    assert!(!i.is_listed());
}

#[test]
fn text_helpers() {
    assert!(bytes_eq(b"abc", b"abc"));
    assert!(!bytes_eq(b"abc", b"abd"));
    assert!(!bytes_eq(b"abc", b"ab"));
    assert!(bytes_eq(b"", b""));
    assert!(str_eq("é", "é"));
    assert!(!str_eq("e", "é"));
    assert_eq!(parse_decimal("0"), Some(0));
    assert_eq!(parse_decimal("007"), Some(7));
    assert_eq!(parse_decimal("18446744073709551615"), Some(u64::MAX));
    assert_eq!(parse_decimal("18446744073709551616"), None);
    assert_eq!(parse_decimal("99999999999999999999"), None);
    assert_eq!(parse_decimal(""), None);
    assert_eq!(parse_decimal("+1"), None);
    assert_eq!(parse_decimal("1 "), None);
    assert_eq!(parse_decimal("١"), None);
    let mut s = String::from("n=");
    push_decimal(&mut s, 1234567890);
    assert_eq!(s, "n=1234567890");
    assert_eq!(find_char("a,b,c", ',', 0), 1);
    assert_eq!(find_char("a,b,c", ',', 2), 3);
    assert_eq!(find_char("a,b,c", ';', 0), 5);
    assert_eq!(find_char("é,", ',', 0), 1);
}
