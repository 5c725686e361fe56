use std::collections::BTreeMap;

use mister_fpga::config::ini::{parse, Error, Ini, Section};
use mister_fpga::config::json::JsonRules;
use mister_fpga::config::load::{mister_rules, ConfigError, IniSource};
use mister_fpga::config::overrides::Config;
use mister_fpga::config::parse::{bool_from_str, hexa_seq, hexa_u16, hexa_u32, hexa_value, HexaError};
use mister_fpga::config::resolution::{Resolution, VideoResolutionString, VideoSectionError};

type Pairs = Vec<(String, String)>;

fn pairs_of(section: &Section) -> Pairs {
    section.entries().iter().map(|e| (e.key.clone(), e.value.clone())).collect()
}

fn shape(ini: &Ini) -> (Pairs, Vec<(String, Pairs)>) {
    (
        pairs_of(ini.root()),
        ini.sections().iter().map(|(n, s)| (n.clone(), pairs_of(s))).collect(),
    )
}

/// The same grammar, written with the string functions of the standard
/// library.
fn parse_with_std(mut input: &str) -> Result<(Pairs, Vec<(String, Pairs)>), String> {
    let mut root: Pairs = Vec::new();
    let mut sections: Vec<(String, Pairs)> = Vec::new();
    let mut current: Option<(String, Pairs)> = None;
    fn close(current: &mut Option<(String, Pairs)>, sections: &mut Vec<(String, Pairs)>) {
        if let Some((header, pairs)) = current.take() {
            for name in header.split('+').map(str::trim) {
                sections.push((name.to_string(), pairs.clone()));
            }
        }
    }
    while !input.is_empty() {
        let i = input.find('\n').unwrap_or(input.len());
        let line = &input[..i];
        let line = line.split(';').next().unwrap_or(line).trim();
        if line.is_empty() {
            input = input[i..].strip_prefix('\n').unwrap_or("");
        } else if let Some(l) = input.strip_prefix('[') {
            let Some((name, after)) = l.split_once(']') else {
                return Err("Category not closed: ".to_string() + l);
            };
            let mut rest = after.chars();
            rest.next();
            input = rest.as_str();
            close(&mut current, &mut sections);
            current = Some((name.trim().to_string(), Vec::new()));
        } else if let Some((key, value)) = line.split_once('=') {
            let pair = (key.trim().to_string(), value.trim().to_string());
            match current.as_mut() {
                Some(c) => c.1.push(pair),
                None => root.push(pair),
            }
            input = &input[i..];
        } else {
            return Err("Invalid line: ".to_string() + line);
        }
    }
    close(&mut current, &mut sections);
    Ok((root, sections))
}

const SAMPLES: &[&str] = &[
    "",
    "\n",
    "\n\n\n",
    "; only a comment",
    "; only a comment\n",
    "a=1",
    "a=1\n",
    "a = 1 ; trailing comment\nb=2",
    "  key with spaces  =  value with spaces  \n",
    "a=b=c\n",
    "=\n",
    "a=\n=b\n",
    "[MiSTer]\nvideo_mode=8\n",
    "[MiSTer]\nvideo_mode=8\n[NES]\nvideo_mode=0\nvideo_mode=1\n",
    "root=1\n[A]\nx=1\n[B]\n[C]\ny=2",
    "[A+B + C]\nx=1\n",
    "[ A ]\n",
    "[A]",
    "[A]x=1\n",
    "[A] x=1\n",
    "[A\nB]\nk=v\n",
    "[A;B]\nk=v\n",
    "[]\nk=v\n",
    "[+]\nk=v\n",
    "[A+]\nk=v\n",
    "[A",
    "[A\nk=v\n",
    "  [A]\n",
    "k\n",
    "k=v\nnot a pair\n",
    "k=v\r\nl=w\r\n",
    "\t k \t=\t v \t\n",
    "k=v;c\n;c2\n\n[S];c3\nq=;c4\n",
    "k=é ü\n[Sección]\nñ=1\n",
    "k\u{a0}=\u{3000}v\u{2003}\n",
    "[A]é=1\n",
    ";\n[A]\n;\n",
    "a=1\n\n\n[video=320x240]\nvideo_mode=2\n[video=320x240@60]\nx=y\n",
    "]\n",
    "x]=1\n",
    "[a]]\n",
    "[a]\n]b=1\n",
];

#[test]
fn parse_agrees_with_the_standard_library() {
    for sample in SAMPLES {
        let expected = parse_with_std(sample);
        match (parse(sample), expected) {
            (Ok(ini), Ok(shape_std)) => assert_eq!(shape(&ini), shape_std, "{:?}", sample),
            (Err(Error::ParseError(m)), Err(m_std)) => assert_eq!(m, m_std, "{:?}", sample),
            (got, want) => panic!("{:?}: {:?} but {:?}", sample, got.map(|i| shape(&i)), want),
        }
    }
}

#[test]
fn parse_sections_and_root() {
    let ini = parse("a = 1\n[MiSTer]\nvideo_mode = 8 ; full hd\n\n[NES+SNES]\nx=y\nx=z\n").unwrap();
    let (root, sections) = shape(&ini);
    let p = |k: &str, v: &str| (k.to_string(), v.to_string());
    assert_eq!(root, vec![p("a", "1")]);
    assert_eq!(
        sections,
        vec![
            ("MiSTer".to_string(), vec![p("video_mode", "8")]),
            ("NES".to_string(), vec![p("x", "y"), p("x", "z")]),
            ("SNES".to_string(), vec![p("x", "y"), p("x", "z")]),
        ]
    );
}

#[test]
fn parse_errors() {
    match parse("[MiSTer\nk=v") {
        Err(Error::ParseError(m)) => assert_eq!(m, "Category not closed: MiSTer\nk=v"),
        Ok(_) => panic!("the header is not closed"),
    }
    match parse("k=v\n  nonsense  ; c\n") {
        Err(Error::ParseError(m)) => assert_eq!(m, "Invalid line: nonsense"),
        Ok(_) => panic!("the line holds no pair"),
    }
}

#[test]
fn parse_header_at_the_very_end() {
    let ini = parse("[A]").unwrap();
    let (root, sections) = shape(&ini);
    assert!(root.is_empty());
    assert_eq!(sections, vec![("A".to_string(), vec![])]);
}

#[test]
fn section_push_and_entries() {
    let mut s = Section::new();
    assert!(s.entries().is_empty());
    s.push("b", "1");
    s.push("a", "2");
    s.push("b", "3");
    assert_eq!(
        pairs_of(&s),
        vec![
            ("b".to_string(), "1".to_string()),
            ("a".to_string(), "2".to_string()),
            ("b".to_string(), "3".to_string()),
        ]
    );
    assert_eq!(pairs_of(&s.duplicate()), pairs_of(&s));
}

#[test]
fn entries_seq_groups_by_key_in_order() {
    let mut s = Section::new();
    for (k, v) in [("b", "1"), ("a", "2"), ("b", "3"), ("ab", "4"), ("", "5"), ("B", "6"), ("é", "7")]
    {
        s.push(k, v);
    }
    let got = s.entries_seq();
    let mut want: BTreeMap<String, Vec<String>> = BTreeMap::new();
    for (k, v) in pairs_of(&s) {
        want.entry(k).or_default().push(v);
    }
    let want: Vec<(String, Vec<String>)> = want.into_iter().collect();
    assert_eq!(got, want);
    let keys: Vec<&str> = got.iter().map(|(k, _)| k.as_str()).collect();
    assert_eq!(keys, vec!["", "B", "a", "ab", "b", "é"]);
    assert_eq!(got[4].1, vec!["1".to_string(), "3".to_string()]);
}

/// The same conversion, written with the maps of the standard library.
fn json_with_std(sections: &[(String, Pairs)], rules: &JsonRules) -> String {
    let raw = |k: &str| rules.raw.iter().any(|r| r == k);
    let is_seq = |k: &str| rules.seq.iter().any(|r| r == k);
    let alias = |k: &str| {
        rules.aliases.iter().find(|(a, _)| a == k).map(|(_, b)| b.clone()).unwrap_or(k.to_string())
    };
    let section_json = |pairs: &Pairs| {
        let mut json = String::new();
        let mut grouped: BTreeMap<String, Vec<String>> = BTreeMap::new();
        for (k, v) in pairs {
            grouped.entry(k.clone()).or_default().push(v.clone());
        }
        let renamed: BTreeMap<String, Vec<String>> =
            grouped.into_iter().map(|(k, v)| (alias(&k), v)).collect();
        let kept: BTreeMap<String, Vec<String>> = renamed
            .into_iter()
            .map(|(k, v)| if is_seq(&k) { (k, v) } else { (k, vec![v[v.len() - 1].clone()]) })
            .collect();
        for (key, value) in kept {
            json.push_str(&format!("\"{}\":", key));
            if is_seq(&key) {
                json.push('[');
                for v in value {
                    if raw(&key) {
                        json.push_str(&v);
                    } else {
                        json.push_str(&format!("{:?},", v));
                    }
                }
                json.pop();
                json.push(']');
            } else if raw(&key) {
                json.push_str(&value[0]);
            } else {
                json.push_str(&format!("{:?}", value[0]));
            }
            json.push(',');
        }
        json
    };
    let mut json = String::from("{ ");
    for (name, pairs) in sections {
        json.push_str(&format!("\"{}\":{{ ", name));
        json.push_str(&section_json(pairs));
        json.pop();
        json.push_str("},");
    }
    json.pop();
    json.push('}');
    json
}

const JSON_SAMPLES: &[&str] = &[
    "[MiSTer]\nvideo_mode=8\n",
    "[MiSTer]\n",
    "root=1\n",
    "[A]\n[B]\n",
    "[MiSTer]\nvideo_mode=6\nvideo_mode=8\nypbpr=1\nvga_mode=rgb\nmouse_throttle=10\nvideo_info=5\n",
    "[MiSTer]\nvga_mode=rgb\nypbpr=1\n",
    "[MiSTer]\nplayer_1_controller=a\nplayer_1_controller=b \"q\"\nno_merge_vidpid=0x1234\n",
    "[MiSTer]\nfont=path\\with\\backslash\nshared_folder=tab\there\nwaitmount=é\u{7f}\n",
    "[MiSTer]\nvideo_hue=\nmouse_throttle=\n",
    "[MiSTer+NES]\ndirect_video=1\n[video=320x240]\nvideo_mode=2\nzz=1\naa=2\nAA=3\n",
    "[\"]\n\"=\"\n",
];

#[test]
fn json_agrees_with_the_standard_library() {
    let rules = mister_rules();
    for sample in JSON_SAMPLES {
        let ini = parse(sample).unwrap();
        let (_, sections) = shape(&ini);
        assert_eq!(ini.to_json_string(&rules), json_with_std(&sections, &rules), "{:?}", sample);
    }
}

#[test]
fn json_with_raw_lists() {
    let rules = JsonRules {
        raw: vec!["n".to_string()],
        seq: vec!["n".to_string(), "s".to_string()],
        aliases: vec![("m".to_string(), "n".to_string()), ("m".to_string(), "x".to_string())],
    };
    for sample in ["[S]\nn=1\nn=22\ns=a\ns=b\n", "[S]\nm=7\n", "[S]\nn=\n", "[S]\nn=1\nm=2\nm=3\n"] {
        let ini = parse(sample).unwrap();
        let (_, sections) = shape(&ini);
        assert_eq!(ini.to_json_string(&rules), json_with_std(&sections, &rules), "{:?}", sample);
    }
    let ini = parse("[S]\nn=1\nn=22\ns=a\ns=b\n").unwrap();
    assert_eq!(ini.to_json_string(&rules), "{ \"S\":{ \"n\":[12],\"s\":[\"a\",\"b\"]}}");
    assert_eq!(rules.alias("m"), "n");
    assert_eq!(rules.alias("n"), "n");
    assert!(rules.is_raw("n"));
    assert!(!rules.is_raw("s"));
    assert!(rules.is_seq("s"));
    assert!(!rules.is_seq("m"));
}

#[test]
fn json_of_a_typical_file() {
    let ini = parse("[MiSTer]\nvideo_mode=8\nvideo_info=3\nypbpr=0\nplayer_1_controller=x\n")
        .unwrap();
    assert_eq!(
        ini.to_json_string(&mister_rules()),
        "{ \"MiSTer\":{ \"player_1_controller\":[\"x\"],\"vga_mode\":\"0\",\"video_info\":3,\"video_mode\":\"8\"}}"
    );
    assert_eq!(parse("").unwrap().to_json_string(&mister_rules()), "{}");
    assert_eq!(parse("a=1").unwrap().to_json_string(&mister_rules()), "{}");
    assert_eq!(parse("[A]").unwrap().to_json_string(&mister_rules()), "{ \"A\":{}}");
}

#[test]
fn works_with_empty_file() {
    Config::from_ini("").unwrap();
}

#[test]
fn from_ini_of_an_empty_text_sets_nothing() {
    match Config::from_ini("").unwrap() {
        IniSource::Empty(config) => {
            assert!(!config.has_override("MiSTer"));
            let m = config.into_inner();
            assert_eq!(m.video_conf, None);
            assert_eq!(m.bootscreen, None);
        }
        IniSource::Json(_) => panic!("an empty text gives no JSON"),
    }
}

#[test]
fn from_ini_gives_json_or_the_error() {
    match Config::from_ini("[MiSTer]\nvideo_off=60\n").unwrap() {
        IniSource::Json(json) => assert_eq!(json, "{ \"MiSTer\":{ \"video_off\":60}}"),
        IniSource::Empty(_) => panic!("the text is not empty"),
    }
    match Config::from_ini("\n").unwrap() {
        IniSource::Json(json) => assert_eq!(json, "{}"),
        IniSource::Empty(_) => panic!("the text is not empty"),
    }
    match Config::from_ini("what") {
        Err(ConfigError::IniError(Error::ParseError(m))) => assert_eq!(m, "Invalid line: what"),
        _ => panic!("the text is no configuration file"),
    }
}

#[test]
fn switches() {
    assert!(bool_from_str("enabled"));
    assert!(bool_from_str("true"));
    assert!(bool_from_str("1"));
    assert!(!bool_from_str("0"));
    assert!(!bool_from_str(""));
    assert!(!bool_from_str("True"));
    assert!(!bool_from_str("yes"));
    assert!(!bool_from_str("2"));
}

#[test]
fn hexadecimal_values() {
    assert_eq!(hexa_u32("0x1234"), Ok(0x1234));
    assert_eq!(hexa_u32("0xffffffff"), Ok(u32::MAX));
    assert_eq!(hexa_u32("0xFFFF"), Ok(0xffff));
    assert_eq!(hexa_u32("0x0"), Ok(0));
    assert_eq!(hexa_u32("0"), Ok(0));
    assert_eq!(hexa_u32("0x+a"), Ok(10));
    assert_eq!(hexa_u32("0x"), Err(HexaError::Invalid));
    assert_eq!(hexa_u32("0x100000000"), Err(HexaError::Invalid));
    assert_eq!(hexa_u32("0xg"), Err(HexaError::Invalid));
    assert_eq!(hexa_u32("0x-1"), Err(HexaError::Invalid));
    assert_eq!(hexa_u32("1"), Err(HexaError::Invalid));
    assert_eq!(hexa_u32("00"), Err(HexaError::Invalid));
    assert_eq!(hexa_u32("1234"), Err(HexaError::Invalid));
    assert_eq!(hexa_u32(""), Err(HexaError::Invalid));
    assert_eq!(hexa_u32("0X12"), Err(HexaError::Invalid));
    assert_eq!(hexa_u32(" 0x12"), Err(HexaError::Invalid));
    assert_eq!(hexa_u16("0xD209"), Ok(0xd209));
    assert_eq!(hexa_u16("0xffff"), Ok(0xffff));
    assert_eq!(hexa_u16("0x10000"), Err(HexaError::Invalid));
    assert_eq!(hexa_u16("0"), Ok(0));
    assert_eq!(hexa_u16("12"), Err(HexaError::Invalid));
}

#[test]
fn hexadecimal_value_from_its_digits() {
    assert_eq!(hexa_value("0x12", Some(18)), Ok(18));
    assert_eq!(hexa_value("0x12", None), Err(HexaError::Invalid));
    assert_eq!(hexa_value("0", Some(5)), Ok(0));
    assert_eq!(hexa_value("0", None), Ok(0));
    assert_eq!(hexa_value("12", Some(18)), Err(HexaError::Invalid));
    assert_eq!(hexa_value("", None), Err(HexaError::Invalid));
}

#[test]
fn hexadecimal_lists() {
    let words = |v: &[&str]| v.iter().map(|s| s.to_string()).collect::<Vec<String>>();
    assert_eq!(hexa_seq(&words(&["0x1", "0", "0xab"])), Ok(vec![1, 0, 0xab]));
    assert_eq!(hexa_seq(&words(&[])), Ok(vec![]));
    assert_eq!(hexa_seq(&words(&["0x1", "1"])), Err(HexaError::Invalid));
}

#[test]
fn video_section_names() {
    let v = |w, h, r| VideoResolutionString { resolution: Resolution { width: w, height: h }, refresh: r };
    assert_eq!(VideoResolutionString::from_str("video=320x240"), Ok(v(320, 240, None)));
    assert_eq!(VideoResolutionString::from_str("video=123x456@78"), Ok(v(123, 456, Some(78))));
    assert_eq!(VideoResolutionString::from_str("video=0x0"), Ok(v(0, 0, None)));
    assert_eq!(VideoResolutionString::from_str("video=007x08@09"), Ok(v(7, 8, Some(9))));
    for bad in ["video=", "video=320", "video=320x", "video=x240", "video=320x240@", "video=3 20x240",
        "video=320x240@60@1", "video=320x240x1", "video=320@60x240", "video=-1x1",
        "video=99999999999999999999x1", "video=320X240"]
    {
        assert_eq!(
            VideoResolutionString::from_str(bad),
            Err(VideoSectionError::InvalidResolution),
            "{}",
            bad
        );
    }
    for other in ["", "NES", "video", "Video=320x240", " video=320x240", "vide=320x240"] {
        assert_eq!(VideoResolutionString::from_str(other), Err(VideoSectionError::NotVideo));
    }
    assert_eq!(VideoSectionError::NotVideo.message(), "Invalid video section string.");
}

#[test]
fn video_section_names_round_trip() {
    for (w, h, r) in [(320u64, 240u64, None), (1920, 1080, Some(60u64)), (0, 0, Some(0)), (u64::MAX, 1, Some(u64::MAX))] {
        let v = VideoResolutionString { resolution: Resolution { width: w, height: h }, refresh: r };
        assert_eq!(VideoResolutionString::from_str(&v.to_string()), Ok(v));
    }
}

#[test]
fn hexadecimal_digits_in_either_case_and_after_a_plus() {
    assert_eq!(hexa_u32("0xAbC"), Ok(0xabc));
    assert_eq!(hexa_u32("0xabcdef"), Ok(0xabcdef));
    assert_eq!(hexa_u32("0xABCDEF"), Ok(0xabcdef));
    assert_eq!(hexa_u32("0x0000000000ff"), Ok(0xff));
    assert_eq!(hexa_u32("0x+ff"), Ok(0xff));
    assert_eq!(hexa_u32("0x+"), Err(HexaError::Invalid));
    assert_eq!(hexa_u32("0x++1"), Err(HexaError::Invalid));
    assert_eq!(hexa_u32("0x1+"), Err(HexaError::Invalid));
    assert_eq!(hexa_u32("0xz"), Err(HexaError::Invalid));
    assert_eq!(hexa_u32("0x1 "), Err(HexaError::Invalid));
    assert_eq!(hexa_u32("0x_1"), Err(HexaError::Invalid));
    assert_eq!(hexa_u32("0x\u{ff11}"), Err(HexaError::Invalid));
    assert_eq!(hexa_u32("0xFFFFFFFF"), Ok(u32::MAX));
    assert_eq!(hexa_u32("0x+100000000"), Err(HexaError::Invalid));
}
