use mister_fpga::cores::model::{Core, MisterFpgaCore, Setting, SettingKind};
use mister_fpga::input::{
    screenshot_file_name, CommandResult, ShortcutCommand, ShortcutEffect, ShortcutKey,
};

#[test]
fn global_commands() {
    assert_eq!(
        ShortcutCommand::globals(),
        vec![
            ShortcutCommand::ShowCoreMenu,
            ShortcutCommand::ResetCore,
            ShortcutCommand::QuitCore,
            ShortcutCommand::TakeScreenshot,
        ]
    );
}

#[test]
fn setting_names_round_trip() {
    for c in ShortcutCommand::globals() {
        let name = c.setting_name().unwrap();
        assert_eq!(ShortcutCommand::from_str(name), Ok(c));
    }
    assert_eq!(ShortcutCommand::ShowCoreMenu.setting_name(), Some("show_menu"));
    assert_eq!(ShortcutCommand::ResetCore.setting_name(), Some("reset_core"));
    assert_eq!(ShortcutCommand::QuitCore.setting_name(), Some("quit_core"));
    assert_eq!(ShortcutCommand::TakeScreenshot.setting_name(), Some("take_screenshot"));
    assert_eq!(ShortcutCommand::CoreSpecificCommand(7).setting_name(), None);
    assert_eq!(ShortcutCommand::from_str("show"), Err("Invalid shortcut"));
    assert_eq!(ShortcutCommand::from_str(""), Err("Invalid shortcut"));
    assert_eq!(ShortcutCommand::from_str("Show_Menu"), Err("Invalid shortcut"));
}

#[test]
fn commands_in_words() {
    assert_eq!(ShortcutCommand::ShowCoreMenu.to_string(), "Show Menu");
    assert_eq!(ShortcutCommand::ResetCore.to_string(), "Reset Core");
    assert_eq!(ShortcutCommand::QuitCore.to_string(), "Quit Core");
    assert_eq!(ShortcutCommand::TakeScreenshot.to_string(), "Take Screenshot");
    assert_eq!(
        ShortcutCommand::CoreSpecificCommand(4_294_967_295).to_string(),
        "Core Specific Command 4294967295"
    );
    assert_eq!(ShortcutCommand::CoreSpecificCommand(0).to_string(), "Core Specific Command 0");
}

#[test]
fn default_shortcuts() {
    assert_eq!(ShortcutCommand::ShowCoreMenu.default_shortcut(), Some(ShortcutKey::F12));
    assert_eq!(ShortcutCommand::ResetCore.default_shortcut(), Some(ShortcutKey::F11));
    assert_eq!(ShortcutCommand::QuitCore.default_shortcut(), Some(ShortcutKey::F10));
    assert_eq!(ShortcutCommand::TakeScreenshot.default_shortcut(), Some(ShortcutKey::SysReq));
    assert_eq!(ShortcutCommand::CoreSpecificCommand(1).default_shortcut(), None);
}

fn nes() -> Core {
    let mut c = MisterFpgaCore::new("NES");
    c.settings = vec![Setting { id: 77, kind: SettingKind::Trigger, start: 9, end: 10 }];
    Core::MisterCore(c)
}

#[test]
fn execute_show_menu_quit_and_screenshot() {
    let mut c = nes();
    let (r, e) = ShortcutCommand::ShowCoreMenu.execute(&mut c);
    assert!(matches!(r, CommandResult::Success));
    assert!(matches!(e, ShortcutEffect::OpenCoreMenu));
    assert!(matches!(ShortcutCommand::after_core_menu(true), CommandResult::QuitCore));
    assert!(matches!(ShortcutCommand::after_core_menu(false), CommandResult::Success));
    let (r, e) = ShortcutCommand::QuitCore.execute(&mut c);
    assert!(matches!(r, CommandResult::QuitCore));
    assert!(matches!(e, ShortcutEffect::Nothing));
    let (r, e) = ShortcutCommand::TakeScreenshot.execute(&mut c);
    assert!(matches!(r, CommandResult::Success));
    assert!(matches!(e, ShortcutEffect::TakeScreenshot));
}

#[test]
fn execute_reset_pulses_status_bit_zero() {
    let mut c = nes();
    c.set_range(0, 4, 0b0110).unwrap();
    let (r, e) = ShortcutCommand::ResetCore.execute(&mut c);
    assert!(matches!(r, CommandResult::Success));
    match e {
        ShortcutEffect::SendStatus { pressed, released } => {
            assert_eq!(pressed.get_range(0, 4), 0b0111);
            assert_eq!(released.get_range(0, 4), 0b0110);
        }
        _ => panic!("a reset sends status bits"),
    }
    assert_eq!(c.read_status_bits().unwrap().get_range(0, 4), 0b0110);
    let mut other = Core::Other { name: "x".to_string() };
    let (r, e) = ShortcutCommand::ResetCore.execute(&mut other);
    assert!(matches!(r, CommandResult::Success));
    assert!(matches!(e, ShortcutEffect::Nothing));
}

#[test]
fn execute_core_specific_command() {
    let mut c = nes();
    let (r, e) = ShortcutCommand::CoreSpecificCommand(77).execute(&mut c);
    assert!(matches!(r, CommandResult::Success));
    match e {
        ShortcutEffect::SendStatus { pressed, released } => {
            assert!(pressed.get(9));
            assert!(!released.get(9));
        }
        _ => panic!("a trigger sends status bits"),
    }
    let (r, e) = ShortcutCommand::CoreSpecificCommand(78).execute(&mut c);
    assert!(matches!(r, CommandResult::Failure(ref s) if s == "Core-specific command not found"));
    assert!(matches!(e, ShortcutEffect::Nothing));
    let mut other = Core::Other { name: "x".to_string() };
    let (r, _) = ShortcutCommand::CoreSpecificCommand(77).execute(&mut other);
    assert!(matches!(r, CommandResult::Failure(ref s) if s == "Core-specific command not found"));
}

#[test]
fn screenshot_names() {
    assert_eq!(
        screenshot_file_name("Sega Master System", "2024-05-01_12-30-00"),
        "Sega_Master_System_2024-05-01_12-30-00.png"
    );
    assert_eq!(screenshot_file_name("NES", "t"), "NES_t.png");
    assert_eq!(screenshot_file_name("", ""), "_.png");
    assert_eq!(screenshot_file_name(" a  b ", "x"), "_a__b__x.png");
    assert_eq!(screenshot_file_name("Pokémon 2", "x"), "Pokémon_2_x.png");
}
