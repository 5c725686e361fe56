use mister_fpga::cores::core_loop::{
    loop_continues_after_menu, on_event, run_core_loop, start_core_loop, LoopAction, LoopEvent,
    LoopPhase, LoopReport, LoopStep,
};
use mister_fpga::cores::dummy::{DummyCore, DummyCoreManager};
use mister_fpga::cores::manager::{CoreLaunchInfo, CoreManager, LaunchError, ManagerState};
use mister_fpga::cores::model::{Core, CoreError, MisterFpgaCore, Setting, SettingKind};
use mister_fpga::cores::status::StatusBitMap;
use mister_fpga::fpga::bus::{CommandBus, SpiFeatureSet};

fn bits_of(map: &StatusBitMap) -> Vec<usize> {
    (0..128).filter(|i| map.get(*i)).collect()
}

#[test]
fn status_bits_start_clear() {
    let m = StatusBitMap::new();
    assert_eq!(m.len(), 128);
    assert!(bits_of(&m).is_empty());
    assert_eq!(m.as_words(), [0u16; 8]);
}

#[test]
fn status_bit_set_and_get() {
    let mut m = StatusBitMap::new();
    m.set(0, true);
    m.set(127, true);
    m.set(16, true);
    assert_eq!(bits_of(&m), vec![0, 16, 127]);
    m.set(0, false);
    assert_eq!(bits_of(&m), vec![16, 127]);
    assert_eq!(m.as_words(), [0, 1, 0, 0, 0, 0, 0, 0x8000]);
}

#[test]
fn set_range_writes_the_low_bits_of_the_value() {
    let mut m = StatusBitMap::new();
    m.set_range(5, 8, 0b101);
    assert_eq!(bits_of(&m), vec![5, 7]);
    assert_eq!(m.get_range(5, 8), 0b101);
    m.set_range(5, 8, 0b1010);
    assert_eq!(bits_of(&m), vec![6]);
    assert_eq!(m.get_range(5, 8), 0b010);
    m.set_range(0, 32, 0xdead_beef);
    assert_eq!(m.get_range(0, 32), 0xdead_beef);
    assert_eq!(m.get_range(0, 16), 0xbeef);
    assert_eq!(m.get_range(16, 32), 0xdead);
    assert_eq!(m.as_words()[0], 0xbeef);
    assert_eq!(m.as_words()[1], 0xdead);
    m.set_range(100, 128, 0xffff_ffff);
    assert_eq!(m.get_range(100, 128), 0x0fff_ffff);
    assert_eq!(m.get_range(96, 128), 0xffff_fff0);
    m.set_range(3, 3, 1);
    assert_eq!(m.get_range(3, 3), 0);
}

#[test]
fn set_range_5_to_8_with_0x160_reads_back_the_low_three_bits() {
    let mut core = Core::MenuCore(MisterFpgaCore::new("MENU"));
    let mut all = StatusBitMap::new();
    all.set_range(0, 32, 0xffff_ffff);
    core.send_status_bits(all).unwrap();
    let sent = core.set_range(5, 8, 0x160).unwrap();
    let read = core.read_status_bits().unwrap();
    assert_eq!(read.get_range(5, 8), 0x160 & 0b111);
    assert_eq!(read.get_range(5, 8), 0);
    assert_eq!(sent.get_range(5, 8), 0);
    assert_eq!(read.get_range(0, 5), 0b11111);
    assert_eq!(read.get_range(8, 32), 0x00ff_ffff);
    assert_eq!(bits_of(&sent), bits_of(&read));
}

#[test]
fn manager_set_range_then_read_on_the_same_handle() {
    let mut m = CoreManager::new();
    let info = CoreLaunchInfo::rbf("/media/fat/menu.rbf");
    let handle = m.launch(&info, true, Ok(Core::MisterCore(MisterFpgaCore::new("NES")))).unwrap();
    assert_eq!(m.get_current_core(), Some(handle));
    m.set_range(5, 8, 0x167).unwrap();
    assert_eq!(m.get_current_core(), Some(handle));
    assert_eq!(m.read_status_bits().unwrap().get_range(5, 8), 0b111);
    m.set_range(5, 8, 0x160).unwrap();
    assert_eq!(m.read_status_bits().unwrap().get_range(5, 8), 0x160 & 0b111);
}

#[test]
fn snapshot_is_not_a_live_alias() {
    let mut core = Core::MisterCore(MisterFpgaCore::new("NES"));
    let before = core.read_status_bits().unwrap();
    core.set_range(0, 4, 0xf).unwrap();
    assert_eq!(before.get_range(0, 4), 0);
    assert_eq!(core.read_status_bits().unwrap().get_range(0, 4), 0xf);
}

#[test]
fn core_without_status_bits_supports_nothing() {
    let mut core = DummyCore.into_core();
    assert_eq!(core.name(), "DummyCore");
    assert!(!core.is_menu());
    assert!(core.as_mister_core().is_none());
    assert!(core.as_menu_core().is_none());
    assert_eq!(core.read_status_bits().unwrap_err(), CoreError::NotSupported);
    assert_eq!(core.set_range(0, 1, 1).unwrap_err(), CoreError::NotSupported);
    assert_eq!(core.trigger(1).unwrap_err(), CoreError::NotSupported);
    assert_eq!(core.bool_option(1, true).unwrap_err(), CoreError::NotSupported);
    assert_eq!(core.int_option(1, 1).unwrap_err(), CoreError::NotSupported);
}

fn core_with_settings() -> Core {
    let mut c = MisterFpgaCore::new("Genesis");
    c.settings = vec![
        Setting { id: 10, kind: SettingKind::Trigger, start: 0, end: 1 },
        Setting { id: 11, kind: SettingKind::Bool, start: 3, end: 4 },
        Setting { id: 12, kind: SettingKind::Int, start: 8, end: 11 },
        Setting { id: 13, kind: SettingKind::Int, start: 120, end: 130 },
        Setting { id: 14, kind: SettingKind::Bool, start: 5, end: 7 },
    ];
    Core::MisterCore(c)
}

#[test]
fn settings_of_a_core() {
    let mut core = core_with_settings();
    assert_eq!(core.bool_option(11, true), Ok(true));
    assert!(core.read_status_bits().unwrap().get(3));
    assert_eq!(core.bool_option(11, false), Ok(false));
    assert!(!core.read_status_bits().unwrap().get(3));
    assert_eq!(core.int_option(12, 5), Ok(5));
    assert_eq!(core.read_status_bits().unwrap().get_range(8, 11), 5);
    assert_eq!(core.int_option(12, 0x1d), Ok(5));
    assert_eq!(core.int_option(12, 8), Ok(0));
    let (pressed, released) = core.trigger(10).unwrap();
    assert!(pressed.get(0));
    assert!(!released.get(0));
    assert!(!core.read_status_bits().unwrap().get(0));
}

#[test]
fn unknown_setting_ids_are_refused() {
    let mut core = core_with_settings();
    assert_eq!(core.trigger(99).unwrap_err(), CoreError::NoSuchSetting);
    assert_eq!(core.bool_option(99, true).unwrap_err(), CoreError::NoSuchSetting);
    assert_eq!(core.int_option(99, 1).unwrap_err(), CoreError::NoSuchSetting);
    // an id of another kind
    assert_eq!(core.trigger(11).unwrap_err(), CoreError::NoSuchSetting);
    assert_eq!(core.bool_option(12, true).unwrap_err(), CoreError::NoSuchSetting);
    assert_eq!(core.int_option(10, 1).unwrap_err(), CoreError::NoSuchSetting);
    // settings whose bits do not lie within the register, or are too many
    assert_eq!(core.int_option(13, 1).unwrap_err(), CoreError::NoSuchSetting);
    assert_eq!(core.bool_option(14, true).unwrap_err(), CoreError::NoSuchSetting);
    assert!(bits_of(&core.read_status_bits().unwrap()).is_empty());
}

#[test]
fn menu_core_has_status_bits_but_no_settings() {
    let mut inner = MisterFpgaCore::new("MENU");
    inner.settings = vec![Setting { id: 1, kind: SettingKind::Bool, start: 0, end: 1 }];
    let mut core = Core::MenuCore(inner);
    assert!(core.is_menu());
    assert!(core.as_menu_core().is_some());
    assert!(core.as_mister_core().is_none());
    assert!(core.read_status_bits().is_ok());
    assert_eq!(core.bool_option(1, true).unwrap_err(), CoreError::NotSupported);
}

#[test]
fn manager_starts_idle() {
    let m = CoreManager::new();
    assert_eq!(m.state(), ManagerState::Idle);
    assert_eq!(m.get_current_core(), None);
    assert!(m.current_core().is_none());
    assert!(!m.osd_visible());
    assert_eq!(m.read_status_bits().unwrap_err(), CoreError::NoCore);
}

#[test]
fn manager_without_core_refuses_settings() {
    let mut m = CoreManager::new();
    assert_eq!(m.trigger(1).unwrap_err(), CoreError::NoCore);
    assert_eq!(m.bool_option(1, true).unwrap_err(), CoreError::NoCore);
    assert_eq!(m.int_option(1, 2).unwrap_err(), CoreError::NoCore);
    assert_eq!(m.set_range(0, 1, 1).unwrap_err(), CoreError::NoCore);
    assert_eq!(m.send_status_bits(StatusBitMap::new()).unwrap_err(), CoreError::NoCore);
}

#[test]
fn manager_lifecycle() {
    let mut m = CoreManager::new();
    let menu = m.load_menu(Ok(Core::MenuCore(MisterFpgaCore::new("MENU")))).unwrap();
    assert_eq!(m.state(), ManagerState::MenuCore);
    assert_eq!(m.get_current_core(), Some(menu));
    let info = CoreLaunchInfo::rbf("/media/fat/_Console/NES.rbf").with_rom("/games/a.nes");
    let nes = m.launch(&info, true, Ok(core_with_settings())).unwrap();
    assert_eq!(m.state(), ManagerState::RunningCore);
    assert_eq!(m.get_current_core(), Some(nes));
    assert!(nes != menu);
    assert_eq!(m.current_core().unwrap().name(), "Genesis");
    assert_eq!(m.int_option(12, 6), Ok(6));
    let menu2 = m.load_menu(Ok(Core::MenuCore(MisterFpgaCore::new("MENU")))).unwrap();
    assert_eq!(m.state(), ManagerState::MenuCore);
    assert!(menu2 != nes && menu2 != menu);
    let released = m.shutdown();
    assert_eq!(released.unwrap().name(), "MENU");
    assert_eq!(m.state(), ManagerState::ShuttingDown);
    assert_eq!(m.get_current_core(), None);
}

#[test]
fn failed_launch_leaves_the_manager_as_it_was() {
    let mut m = CoreManager::new();
    let menu = m.load_menu(Ok(Core::MenuCore(MisterFpgaCore::new("MENU")))).unwrap();
    m.set_range(0, 8, 0x5a).unwrap();
    let info = CoreLaunchInfo::rbf("/x.rbf");

    let e = m.launch(&info, false, Ok(core_with_settings())).unwrap_err();
    assert!(matches!(e, LaunchError::ProgramNotFound));
    let e = m.launch(&info, true, Err("bitstream rejected".to_string())).unwrap_err();
    assert!(matches!(e, LaunchError::LoadFailed(ref s) if s == "bitstream rejected"));
    let e = m.launch(&CoreLaunchInfo::rbf(""), true, Ok(core_with_settings())).unwrap_err();
    assert!(matches!(e, LaunchError::ProgramNotFound));
    let e = m.load_menu(Err("no menu".to_string())).unwrap_err();
    assert!(matches!(e, LaunchError::LoadFailed(ref s) if s == "no menu"));

    assert_eq!(m.state(), ManagerState::MenuCore);
    assert_eq!(m.get_current_core(), Some(menu));
    assert_eq!(m.current_core().unwrap().name(), "MENU");
    assert_eq!(m.read_status_bits().unwrap().get_range(0, 8), 0x5a);
}

#[test]
fn launch_descriptor_is_checked() {
    let ok = CoreLaunchInfo::rbf("/a.rbf").with_file(0, "/s0").with_file(2, "/s2");
    assert!(ok.check(true).is_ok());
    assert!(matches!(ok.check(false), Err(LaunchError::ProgramNotFound)));
    let dup = CoreLaunchInfo::rbf("/a.rbf").with_file(1, "/x").with_file(0, "/y").with_file(1, "/z");
    assert!(matches!(dup.check(true), Err(LaunchError::InvalidSlot)));
    let empty = CoreLaunchInfo::rbf("/a.rbf").with_file(1, "");
    assert!(matches!(empty.check(true), Err(LaunchError::InvalidSlot)));
    let rom = CoreLaunchInfo::rbf("/a.rbf").with_rom("");
    assert!(matches!(rom.check(true), Err(LaunchError::InvalidRom)));
    let rom = CoreLaunchInfo::rbf("").with_rom("");
    assert!(matches!(rom.check(true), Err(LaunchError::ProgramNotFound)));
}

#[test]
fn nothing_is_loaded_after_shutdown() {
    let mut m = CoreManager::new();
    assert!(m.shutdown().is_none());
    let info = CoreLaunchInfo::rbf("/a.rbf");
    assert!(matches!(m.check_launch(&info, true), Err(LaunchError::ShuttingDown)));
    let e = m.launch(&info, true, Ok(core_with_settings())).unwrap_err();
    assert!(matches!(e, LaunchError::ShuttingDown));
    let e = m.load_menu(Ok(Core::MenuCore(MisterFpgaCore::new("MENU")))).unwrap_err();
    assert!(matches!(e, LaunchError::ShuttingDown));
    assert_eq!(m.state(), ManagerState::ShuttingDown);
    assert_eq!(m.get_current_core(), None);
}

#[test]
fn show_and_hide_menu_are_idempotent() {
    let mut m = CoreManager::new();
    let mut bus = CommandBus::new();
    m.show_menu(&mut bus);
    assert!(m.osd_visible());
    let state = m.state();
    m.show_menu(&mut bus);
    assert!(m.osd_visible());
    assert_eq!(m.state(), state);
    m.hide_menu(&mut bus);
    m.hide_menu(&mut bus);
    assert!(!m.osd_visible());
    let frames = bus.take_pending();
    let opcodes: Vec<u16> = frames.iter().map(|f| f.opcode).collect();
    assert_eq!(opcodes, vec![0x41, 0x41, 0x40, 0x40]);
    assert!(frames.iter().all(|f| f.feature == SpiFeatureSet::Osd && f.payload.is_empty()));
}

#[test]
fn dummy_manager_always_loads_the_dummy_core() {
    let mut loader = DummyCoreManager;
    let mut core = loader.load_program("/any.rbf").unwrap();
    assert_eq!(core.name(), "DummyCore");
    assert_eq!(core.version(), None);
    assert!(core.load_file("/a").is_ok());
    assert!(loader.load_menu().is_ok());
    loader.show_menu();
    loader.hide_menu();
    let mut m = CoreManager::new();
    let h = m.load_menu(loader.load_menu().map(|c| c.into_core())).unwrap();
    assert_eq!(m.get_current_core(), Some(h));
}

#[test]
fn loop_events() {
    assert_eq!(on_event(LoopEvent::KeyDown { menu_key: true, scancode: 69 }), LoopAction::OpenMenu);
    assert_eq!(
        on_event(LoopEvent::KeyDown { menu_key: false, scancode: 4 }),
        LoopAction::SendKey { scancode: 4 }
    );
    assert_eq!(
        on_event(LoopEvent::KeyDown { menu_key: false, scancode: 0x104 }),
        LoopAction::SendKey { scancode: 4 }
    );
    assert_eq!(
        on_event(LoopEvent::JoyButtonDown { which: 1, button_idx: 3 }),
        LoopAction::JoyButtonDown { joystick_idx: 0, button: 3 }
    );
    assert_eq!(
        on_event(LoopEvent::JoyButtonUp { which: 258, button_idx: 9 }),
        LoopAction::JoyButtonUp { joystick_idx: 1, button: 9 }
    );
    assert_eq!(on_event(LoopEvent::Other), LoopAction::Nothing);
}

#[test]
fn core_loop_without_menu() {
    assert_eq!(start_core_loop(false), (LoopPhase::Running, LoopStep::HideAndRun));
    assert_eq!(
        run_core_loop(LoopPhase::Running, LoopReport::Completed),
        (LoopPhase::Ending, LoopStep::LoadMenu)
    );
    assert_eq!(
        run_core_loop(LoopPhase::Ending, LoopReport::Completed),
        (LoopPhase::Done, LoopStep::Finished)
    );
}

#[test]
fn core_loop_with_menu_first() {
    assert_eq!(start_core_loop(true), (LoopPhase::MenuFirst, LoopStep::HideAndOpenMenu));
    assert_eq!(
        run_core_loop(LoopPhase::MenuFirst, LoopReport::MenuClosed { quit: false }),
        (LoopPhase::Running, LoopStep::Run)
    );
    assert_eq!(
        run_core_loop(LoopPhase::MenuFirst, LoopReport::MenuClosed { quit: true }),
        (LoopPhase::Ending, LoopStep::LoadMenu)
    );
    assert!(loop_continues_after_menu(false));
    assert!(!loop_continues_after_menu(true));
}
