//! The manager of the lifecycle of the cores.
//!
//! The manager starts idle. Loading the menu core brings it to the menu
//! core, launching a core to a running core, and from either the other can
//! be loaded again. Shutting down is final. Loading is done by the platform:
//! the manager is told what the load gave, and changes state only where the
//! load succeeded.

use super::model::{Core, CoreError};
use super::status::{StatusBitMap, STATUS_BITS};
use crate::fpga::bus::{CommandBus, SpiCommand};
use crate::fpga::osd_io::{OsdDisable, OsdEnable};
use vstd::prelude::*;

verus! {

/// The states of the manager.
#[derive(Clone, Copy, Debug, PartialEq, Eq, Structural)]
pub enum ManagerState {
    /// No core has been loaded.
    Idle,
    /// The menu core is loaded.
    MenuCore,
    /// A core is running.
    RunningCore,
    /// The manager has shut down.
    ShuttingDown,
}

/// A reference to the core that is loaded. Each load gives a new one.
#[derive(Clone, Copy, Debug, PartialEq, Eq, Structural)]
pub struct CoreHandle {
    /// The number of the load.
    pub id: u64,
}

/// A file assigned to a slot of the core.
#[derive(Debug)]
pub struct FileSlot {
    /// The slot.
    pub slot: usize,
    /// The path of the file.
    pub path: String,
}

/// What to launch: the program of the core, and what is loaded into it.
#[derive(Debug)]
pub struct CoreLaunchInfo {
    /// The path of the program.
    pub program: String,
    /// The path of the ROM, where one is loaded.
    pub rom: Option<String>,
    /// The files assigned to slots.
    pub files: Vec<FileSlot>,
}

/// Why a core was not launched.
#[derive(Debug)]
pub enum LaunchError {
    /// The manager has shut down.
    ShuttingDown,
    /// The path of the program is empty, or there is no file at it.
    ProgramNotFound,
    /// The path of the ROM is empty.
    InvalidRom,
    /// Two files are assigned to the same slot, or the path of one is empty.
    InvalidSlot,
    /// The platform could not load the program; with what it said.
    LoadFailed(String),
}

/// Whether no two files of a list are assigned to the same slot and every
/// file has a path.
pub open spec fn spec_slots_valid(files: Seq<FileSlot>) -> bool {
    &&& forall|i: int| 0 <= i < files.len() ==> (#[trigger] files[i]).path@.len() > 0
    &&& forall|i: int, j: int|
        0 <= i < j < files.len() ==> (#[trigger] files[i]).slot != (#[trigger] files[j]).slot
}

/// The files of a list of optional paths, each assigned to the slot of its
/// place in the list.
pub open spec fn spec_slots_of(files: Seq<Option<String>>, n: int) -> Seq<(int, Seq<char>)>
    decreases n,
{
    if n <= 0 || n > files.len() {
        Seq::empty()
    } else if files[n - 1].is_some() {
        spec_slots_of(files, n - 1).push((n - 1, files[n - 1].unwrap()@))
    } else {
        spec_slots_of(files, n - 1)
    }
}

impl CoreLaunchInfo {
    /// The descriptor of a program with a game and files: each file that is
    /// named is assigned to the slot of its place in the list.
    pub fn from_options(program: &str, game: Option<&str>, files: &Vec<Option<String>>) -> (r:
        CoreLaunchInfo)
        ensures
            r.program@ == program@,
            match game {
                Some(path) => r.rom.is_some() && r.rom.unwrap()@ == path@,
                None => r.rom.is_none(),
            },
            r.files@.len() == spec_slots_of(files@, files@.len() as int).len(),
            forall|i: int|
                0 <= i < r.files@.len() ==> (#[trigger] r.files@[i]).slot as int == spec_slots_of(
                    files@,
                    files@.len() as int,
                )[i].0 && r.files@[i].path@ == spec_slots_of(files@, files@.len() as int)[i].1,
    {
        let mut slots: Vec<FileSlot> = Vec::new();
        let mut i: usize = 0;
        while i < files.len()
            invariant
                i <= files@.len(),
                slots@.len() == spec_slots_of(files@, i as int).len(),
                forall|k: int|
                    0 <= k < slots@.len() ==> (#[trigger] slots@[k]).slot as int == spec_slots_of(
                        files@,
                        i as int,
                    )[k].0 && slots@[k].path@ == spec_slots_of(files@, i as int)[k].1,
            decreases files.len() - i,
        {
            if let Some(path) = &files[i] {
                slots.push(FileSlot { slot: i, path: path.clone() });
            }
            i = i + 1;
        }
        CoreLaunchInfo {
            program: String::from_str(program),
            rom: match game {
                Some(path) => Some(String::from_str(path)),
                None => None,
            },
            files: slots,
        }
    }

    /// What is wrong with the descriptor, given whether there is a file at
    /// the path of its program; `None` where nothing is.
    pub open spec fn spec_check(&self, program_exists: bool) -> Option<LaunchError> {
        if self.program@.len() == 0 || !program_exists {
            Some(LaunchError::ProgramNotFound)
        } else if self.rom.is_some() && self.rom.unwrap()@.len() == 0 {
            Some(LaunchError::InvalidRom)
        } else if !spec_slots_valid(self.files@) {
            Some(LaunchError::InvalidSlot)
        } else {
            None
        }
    }

    /// The descriptor of a program, with nothing loaded into it.
    pub fn rbf(program: &str) -> (r: CoreLaunchInfo)
        ensures
            r.program@ == program@,
            r.rom.is_none(),
            r.files@.len() == 0,
    {
        CoreLaunchInfo { program: String::from_str(program), rom: None, files: Vec::new() }
    }

    /// The descriptor with a ROM.
    pub fn with_rom(self, rom: &str) -> (r: CoreLaunchInfo)
        ensures
            r.program == self.program,
            r.rom.is_some() && r.rom.unwrap()@ == rom@,
            r.files == self.files,
    {
        CoreLaunchInfo { program: self.program, rom: Some(String::from_str(rom)), files: self.files }
    }

    /// The descriptor with one more file assigned to a slot.
    pub fn with_file(self, slot: usize, path: &str) -> (r: CoreLaunchInfo)
        ensures
            r.program == self.program,
            r.rom == self.rom,
            r.files@.len() == self.files@.len() + 1,
            r.files@.subrange(0, self.files@.len() as int) == self.files@,
            r.files@.last().slot == slot,
            r.files@.last().path@ == path@,
    {
        let mut files = self.files;
        files.push(FileSlot { slot, path: String::from_str(path) });
        assert(files@.subrange(0, self.files@.len() as int) =~= self.files@);
        CoreLaunchInfo { program: self.program, rom: self.rom, files }
    }

    /// Checks the descriptor, given whether there is a file at the path of
    /// its program.
    pub fn check(&self, program_exists: bool) -> (r: Result<(), LaunchError>)
        ensures
            match r {
                Ok(_) => self.spec_check(program_exists).is_none(),
                Err(e) => self.spec_check(program_exists) == Some(e),
            },
    {
        if self.program.as_str().unicode_len() == 0 || !program_exists {
            return Err(LaunchError::ProgramNotFound);
        }
        if let Some(rom) = &self.rom {
            if rom.as_str().unicode_len() == 0 {
                return Err(LaunchError::InvalidRom);
            }
        }
        let mut i: usize = 0;
        while i < self.files.len()
            invariant
                i <= self.files@.len(),
                spec_slots_valid(self.files@.take(i as int)),
                self.spec_check(program_exists).is_none() || self.spec_check(program_exists)
                    == Some(LaunchError::InvalidSlot),
            decreases self.files.len() - i,
        {
            if self.files[i].path.as_str().unicode_len() == 0 {
                assert(!spec_slots_valid(self.files@));
                return Err(LaunchError::InvalidSlot);
            }
            let mut j: usize = 0;
            while j < i
                invariant
                    j <= i < self.files@.len(),
                    forall|k: int| 0 <= k < j ==> self.files@[k].slot != self.files@[i as int].slot,
                    self.spec_check(program_exists).is_none() || self.spec_check(program_exists)
                        == Some(LaunchError::InvalidSlot),
                decreases i - j,
            {
                if self.files[j].slot == self.files[i].slot {
                    assert(!spec_slots_valid(self.files@));
                    return Err(LaunchError::InvalidSlot);
                }
                j = j + 1;
            }
            i = i + 1;
            assert(spec_slots_valid(self.files@.take(i as int))) by {
                let t = self.files@.take(i as int);
                let u = self.files@.take(i as int - 1);
                assert forall|a: int| 0 <= a < t.len() implies (#[trigger] t[a]).path@.len()
                    > 0 by {
                    if a < i - 1 {
                        assert(u[a] == t[a]);
                    }
                }
                assert forall|a: int, b: int| 0 <= a < b < t.len() implies (#[trigger] t[a]).slot
                    != (#[trigger] t[b]).slot by {
                    if b < i - 1 {
                        assert(u[a] == t[a] && u[b] == t[b]);
                    }
                }
            }
        }
        assert(self.files@.take(i as int) =~= self.files@);
        Ok(())
    }
}

/// The value written to the status bits 5 to 7 of the menu core when the
/// picture goes to the terminal.
pub const TERMINAL_STATUS: u32 = 0x160;

/// Where the framebuffer is put out: on which output, and the size and the
/// place of the picture.
#[derive(Clone, Copy, Debug, PartialEq, Eq, Structural)]
pub struct FramebufferOutput {
    /// The output: 0 for the terminal, 1 for the core.
    pub n: u8,
    /// The width of the framebuffer.
    pub width: u16,
    /// The height of the framebuffer.
    pub height: u16,
    /// The width of the picture.
    pub hact: u16,
    /// The height of the picture.
    pub vact: u16,
    /// The horizontal offset of the picture.
    pub x_offset: u16,
    /// The vertical offset of the picture.
    pub y_offset: u16,
}

/// Where the framebuffer is put out for the terminal and for the core: in
/// both cases a picture of 640 by 480 without offset.
pub fn framebuffer_output(to_terminal: bool) -> (r: FramebufferOutput)
    ensures
        r == (FramebufferOutput {
            n: if to_terminal {
                0u8
            } else {
                1u8
            },
            width: 640,
            height: 480,
            hact: 640,
            vact: 480,
            x_offset: 0,
            y_offset: 0,
        }),
{
    FramebufferOutput {
        n: if to_terminal {
            0
        } else {
            1
        },
        width: 640,
        height: 480,
        hact: 640,
        vact: 480,
        x_offset: 0,
        y_offset: 0,
    }
}

/// The manager of the lifecycle of the cores.
#[derive(Debug)]
pub struct CoreManager {
    state: ManagerState,
    current: Option<Core>,
    handle: u64,
    loads: u64,
    osd_visible: bool,
}

/// What the manager holds.
pub struct CoreManagerView {
    /// The state.
    pub state: ManagerState,
    /// The core that is loaded.
    pub current: Option<Core>,
    /// The handle of the core that is loaded.
    pub handle: Option<CoreHandle>,
    /// The number of loads that succeeded.
    pub loads: nat,
    /// Whether the overlay is shown.
    pub osd_visible: bool,
}

impl View for CoreManager {
    type V = CoreManagerView;

    closed spec fn view(&self) -> CoreManagerView {
        CoreManagerView {
            state: self.state,
            current: self.current,
            handle: if self.current.is_some() {
                Some(CoreHandle { id: self.handle })
            } else {
                None
            },
            loads: self.loads as nat,
            osd_visible: self.osd_visible,
        }
    }
}

impl CoreManagerView {
    /// Whether the state and the loaded core agree: a core is loaded exactly
    /// in the states of the menu core and of a running core.
    pub open spec fn spec_wf(self) -> bool {
        &&& self.current.is_some() <==> (self.state == ManagerState::MenuCore || self.state
            == ManagerState::RunningCore)
        &&& self.handle.is_some() == self.current.is_some()
        &&& self.loads < u64::MAX
    }

    /// The manager once the overlay is shown.
    pub open spec fn spec_show_menu(self) -> CoreManagerView {
        CoreManagerView { osd_visible: true, ..self }
    }

    /// The manager once the overlay is hidden.
    pub open spec fn spec_hide_menu(self) -> CoreManagerView {
        CoreManagerView { osd_visible: false, ..self }
    }

    /// Whether the manager is as `before` was, but perhaps for what the
    /// loaded core holds.
    pub open spec fn spec_same_but_core(self, before: CoreManagerView) -> bool {
        &&& self.state == before.state
        &&& self.handle == before.handle
        &&& self.loads == before.loads
        &&& self.osd_visible == before.osd_visible
        &&& self.current.is_some() == before.current.is_some()
    }

    /// Why a load is refused before it is tried; `None` where it is not.
    pub open spec fn spec_refuses(self) -> Option<LaunchError> {
        if self.state == ManagerState::ShuttingDown {
            Some(LaunchError::ShuttingDown)
        } else {
            None
        }
    }
}

impl CoreManager {
    /// Whether the manager is well formed.
    pub open spec fn wf(&self) -> bool {
        self@.spec_wf()
    }

    /// An idle manager.
    pub fn new() -> (r: CoreManager)
        ensures
            r.wf(),
            r@.state == ManagerState::Idle,
            r@.current.is_none(),
            r@.loads == 0,
            !r@.osd_visible,
    {
        CoreManager {
            state: ManagerState::Idle,
            current: None,
            handle: 0,
            loads: 0,
            osd_visible: false,
        }
    }

    /// The state.
    pub fn state(&self) -> (r: ManagerState)
        ensures
            r == self@.state,
    {
        self.state
    }

    /// The handle of the core that is loaded; `None` while idle and after
    /// shutting down.
    pub fn get_current_core(&self) -> (r: Option<CoreHandle>)
        requires
            self.wf(),
        ensures
            r == self@.handle,
            self@.state == ManagerState::Idle ==> r.is_none(),
    {
        match &self.current {
            Some(_) => Some(CoreHandle { id: self.handle }),
            None => None,
        }
    }

    /// The core that is loaded.
    pub fn current_core(&self) -> (r: Option<&Core>)
        ensures
            match r {
                Some(c) => self@.current == Some(*c),
                None => self@.current.is_none(),
            },
    {
        self.current.as_ref()
    }

    /// Whether the overlay is shown.
    pub fn osd_visible(&self) -> (r: bool)
        ensures
            r == self@.osd_visible,
    {
        self.osd_visible
    }

    /// Whether a launch may be tried: the manager has not shut down and the
    /// descriptor is valid.
    pub fn check_launch(&self, descriptor: &CoreLaunchInfo, program_exists: bool) -> (r: Result<
        (),
        LaunchError,
    >)
        ensures
            match r {
                Ok(_) => self@.spec_refuses().is_none() && descriptor.spec_check(
                    program_exists,
                ).is_none(),
                Err(e) => Some(e) == (if self@.spec_refuses().is_some() {
                    self@.spec_refuses()
                } else {
                    descriptor.spec_check(program_exists)
                }),
            },
    {
        match self.state {
            ManagerState::ShuttingDown => Err(LaunchError::ShuttingDown),
            _ => descriptor.check(program_exists),
        }
    }

    fn install(&mut self, core: Core, state: ManagerState) -> (handle: CoreHandle)
        requires
            old(self).wf(),
            state == ManagerState::MenuCore || state == ManagerState::RunningCore,
        ensures
            final(self).wf(),
            final(self)@.state == state,
            final(self)@.current == Some(core),
            final(self)@.handle == Some(handle),
            handle.id as nat == old(self)@.loads,
            final(self)@.loads == (if old(self)@.loads + 1 < u64::MAX {
                old(self)@.loads + 1
            } else {
                old(self)@.loads
            }),
            final(self)@.osd_visible == old(self)@.osd_visible,
    {
        let id = self.loads;
        self.state = state;
        self.current = Some(core);
        self.handle = id;
        if self.loads + 1 < u64::MAX {
            self.loads = self.loads + 1;
        }
        CoreHandle { id }
    }

    /// Launches a core. `loaded` is what loading the program gave; the
    /// platform tries the load only where `check_launch` allows it.
    ///
    /// Where the manager has shut down, the descriptor is invalid or the load
    /// failed, the launch fails and the manager is as it was. Else the
    /// manager is at a running core, the loaded core replaces the core that
    /// was there, and its handle is new.
    pub fn launch(
        &mut self,
        descriptor: &CoreLaunchInfo,
        program_exists: bool,
        loaded: Result<Core, String>,
    ) -> (r: Result<CoreHandle, LaunchError>)
        requires
            old(self).wf(),
        ensures
            final(self).wf(),
            match r {
                Ok(handle) => {
                    &&& old(self)@.spec_refuses().is_none()
                    &&& descriptor.spec_check(program_exists).is_none()
                    &&& loaded.is_ok()
                    &&& final(self)@.state == ManagerState::RunningCore
                    &&& final(self)@.current == Some(loaded.unwrap())
                    &&& final(self)@.handle == Some(handle)
                    &&& handle.id as nat == old(self)@.loads
                    &&& final(self)@.osd_visible == old(self)@.osd_visible
                },
                Err(e) => {
                    &&& final(self)@ == old(self)@
                    &&& Some(e) == (if old(self)@.spec_refuses().is_some() {
                        old(self)@.spec_refuses()
                    } else if descriptor.spec_check(program_exists).is_some() {
                        descriptor.spec_check(program_exists)
                    } else {
                        Some(LaunchError::LoadFailed(loaded.unwrap_err()))
                    })
                    &&& (old(self)@.spec_refuses().is_some() || descriptor.spec_check(
                        program_exists,
                    ).is_some() || loaded.is_err())
                },
            },
    {
        match self.check_launch(descriptor, program_exists) {
            Err(e) => Err(e),
            Ok(_) => match loaded {
                Err(message) => Err(LaunchError::LoadFailed(message)),
                Ok(core) => Ok(self.install(core, ManagerState::RunningCore)),
            },
        }
    }

    /// Loads the menu core. `loaded` is what loading it gave.
    ///
    /// Where the manager has shut down or the load failed, the manager is as
    /// it was. Else the manager is at the menu core.
    pub fn load_menu(&mut self, loaded: Result<Core, String>) -> (r: Result<
        CoreHandle,
        LaunchError,
    >)
        requires
            old(self).wf(),
        ensures
            final(self).wf(),
            match r {
                Ok(handle) => {
                    &&& old(self)@.spec_refuses().is_none()
                    &&& loaded.is_ok()
                    &&& final(self)@.state == ManagerState::MenuCore
                    &&& final(self)@.current == Some(loaded.unwrap())
                    &&& final(self)@.handle == Some(handle)
                    &&& handle.id as nat == old(self)@.loads
                    &&& final(self)@.osd_visible == old(self)@.osd_visible
                },
                Err(e) => {
                    &&& final(self)@ == old(self)@
                    &&& Some(e) == (if old(self)@.spec_refuses().is_some() {
                        old(self)@.spec_refuses()
                    } else {
                        Some(LaunchError::LoadFailed(loaded.unwrap_err()))
                    })
                    &&& (old(self)@.spec_refuses().is_some() || loaded.is_err())
                },
            },
    {
        match self.state {
            ManagerState::ShuttingDown => Err(LaunchError::ShuttingDown),
            _ => match loaded {
                Err(message) => Err(LaunchError::LoadFailed(message)),
                Ok(core) => Ok(self.install(core, ManagerState::MenuCore)),
            },
        }
    }

    /// Shuts the manager down and hands back the core that was loaded, for
    /// its resources to be released.
    pub fn shutdown(&mut self) -> (released: Option<Core>)
        requires
            old(self).wf(),
        ensures
            final(self).wf(),
            final(self)@.state == ManagerState::ShuttingDown,
            final(self)@.current.is_none(),
            released == old(self)@.current,
            final(self)@.loads == old(self)@.loads,
            final(self)@.osd_visible == old(self)@.osd_visible,
    {
        self.state = ManagerState::ShuttingDown;
        self.current.take()
    }

    /// Shows the overlay.
    pub fn show_menu(&mut self, bus: &mut CommandBus)
        ensures
            final(self)@ == old(self)@.spec_show_menu(),
            final(bus)@ == old(bus)@.spec_transmit(OsdEnable.spec_frame()),
    {
        crate::fpga::osd_io::enable(bus);
        self.osd_visible = true;
    }

    /// Hides the overlay.
    pub fn hide_menu(&mut self, bus: &mut CommandBus)
        ensures
            final(self)@ == old(self)@.spec_hide_menu(),
            final(bus)@ == old(bus)@.spec_transmit(OsdDisable.spec_frame()),
    {
        crate::fpga::osd_io::disable(bus);
        self.osd_visible = false;
    }

    /// A snapshot of the status bits of the loaded core.
    pub fn read_status_bits(&self) -> (r: Result<StatusBitMap, CoreError>)
        ensures
            match r {
                Ok(bits) => self@.current.is_some() && self@.current.unwrap().spec_status() == Some(
                    bits@,
                ),
                Err(e) => e == (if self@.current.is_none() {
                    CoreError::NoCore
                } else {
                    CoreError::NotSupported
                }) && (self@.current.is_some() ==> self@.current.unwrap().spec_status().is_none()),
            },
    {
        match &self.current {
            Some(core) => core.read_status_bits(),
            None => Err(CoreError::NoCore),
        }
    }

    /// Replaces the status bits of the loaded core, and hands back the bits
    /// to send to it; `NoCore` where none is loaded.
    pub fn send_status_bits(&mut self, bits: StatusBitMap) -> (r: Result<StatusBitMap, CoreError>)
        ensures
            final(self)@.spec_same_but_core(old(self)@),
            match old(self)@.current {
                Some(before) => final(self)@.current.is_some()
                    && before.spec_send_status_bits_post(bits@, r, final(self)@.current.unwrap()),
                None => r == Err::<StatusBitMap, CoreError>(CoreError::NoCore)
                    && final(self)@.current.is_none(),
            },
    {
        match &mut self.current {
            Some(core) => core.send_status_bits(bits),
            None => Err(CoreError::NoCore),
        }
    }

    /// Sets the status bits `start..end` of the loaded core to the low bits
    /// of `value`, and hands back the bits to send to it. A read that follows
    /// sees the bits that were set.
    pub fn set_range(&mut self, start: usize, end: usize, value: u32) -> (r: Result<
        StatusBitMap,
        CoreError,
    >)
        requires
            start <= end <= STATUS_BITS,
        ensures
            final(self)@.spec_same_but_core(old(self)@),
            match old(self)@.current {
                Some(before) => final(self)@.current.is_some() && before.spec_set_range_post(
                    start as int,
                    end as int,
                    value as nat,
                    r,
                    final(self)@.current.unwrap(),
                ),
                None => r == Err::<StatusBitMap, CoreError>(CoreError::NoCore)
                    && final(self)@.current.is_none(),
            },
    {
        match &mut self.current {
            Some(core) => core.set_range(start, end, value),
            None => Err(CoreError::NoCore),
        }
    }

    /// Hands the picture over between the terminal and the menu core: where
    /// the menu core is loaded, its status bits 5 to 7 are set to the low bits
    /// of `TERMINAL_STATUS` for the terminal and cleared for the core, and the
    /// bits to send are handed back; else nothing is done.
    pub fn switch_picture(&mut self, to_terminal: bool) -> (r: Option<StatusBitMap>)
        ensures
            final(self)@.spec_same_but_core(old(self)@),
            match old(self)@.current {
                Some(before) => final(self)@.current.is_some() && (if before.spec_is_menu() {
                    r.is_some() && before.spec_set_range_post(
                        5,
                        8,
                        (if to_terminal {
                            TERMINAL_STATUS
                        } else {
                            0u32
                        }) as nat,
                        Ok(r.unwrap()),
                        final(self)@.current.unwrap(),
                    )
                } else {
                    r.is_none() && final(self)@.current.unwrap() == before
                }),
                None => r.is_none() && final(self)@.current.is_none(),
            },
    {
        let value: u32 = if to_terminal {
            TERMINAL_STATUS
        } else {
            0
        };
        match &mut self.current {
            Some(core) => {
                if core.is_menu() {
                    match core.set_range(5, 8, value) {
                        Ok(sent) => Some(sent),
                        Err(_) => None,
                    }
                } else {
                    None
                }
            },
            None => None,
        }
    }

    /// Pulses a trigger of the loaded core; `NoCore` where none is loaded,
    /// `NotSupported` where the core has no settings, and `NoSuchSetting`
    /// where it has no trigger of that id.
    pub fn trigger(&mut self, setting_id: u32) -> (r: Result<
        (StatusBitMap, StatusBitMap),
        CoreError,
    >)
        ensures
            final(self)@.spec_same_but_core(old(self)@),
            match old(self)@.current {
                Some(before) => final(self)@.current.is_some() && before.spec_trigger_post(
                    setting_id,
                    r,
                    final(self)@.current.unwrap(),
                ),
                None => r == Err::<(StatusBitMap, StatusBitMap), CoreError>(CoreError::NoCore)
                    && final(self)@.current.is_none(),
            },
    {
        match &mut self.current {
            Some(core) => core.trigger(setting_id),
            None => Err(CoreError::NoCore),
        }
    }

    /// Switches a switch of the loaded core and hands back what it now
    /// holds; `NoCore` where none is loaded, `NotSupported` where the core has
    /// no settings, and `NoSuchSetting` where it has no switch of that id.
    pub fn bool_option(&mut self, setting_id: u32, value: bool) -> (r: Result<bool, CoreError>)
        ensures
            final(self)@.spec_same_but_core(old(self)@),
            match old(self)@.current {
                Some(before) => final(self)@.current.is_some() && before.spec_bool_option_post(
                    setting_id,
                    value,
                    r,
                    final(self)@.current.unwrap(),
                ),
                None => r == Err::<bool, CoreError>(CoreError::NoCore)
                    && final(self)@.current.is_none(),
            },
    {
        match &mut self.current {
            Some(core) => core.bool_option(setting_id, value),
            None => Err(CoreError::NoCore),
        }
    }

    /// Puts a number into a setting of the loaded core and hands back what
    /// the setting now holds; `NoCore` where none is loaded, `NotSupported`
    /// where the core has no settings, and `NoSuchSetting` where it has no
    /// setting of that id that holds a number.
    pub fn int_option(&mut self, setting_id: u32, value: u32) -> (r: Result<u32, CoreError>)
        ensures
            final(self)@.spec_same_but_core(old(self)@),
            match old(self)@.current {
                Some(before) => final(self)@.current.is_some() && before.spec_int_option_post(
                    setting_id,
                    value,
                    r,
                    final(self)@.current.unwrap(),
                ),
                None => r == Err::<u32, CoreError>(CoreError::NoCore)
                    && final(self)@.current.is_none(),
            },
    {
        match &mut self.current {
            Some(core) => core.int_option(setting_id, value),
            None => Err(CoreError::NoCore),
        }
    }
}

/// Showing the overlay twice leaves the manager as showing it once does,
/// and so does hiding it twice; neither touches the state, the loaded core
/// or its handle.
pub proof fn law_show_hide_idempotent(m: CoreManagerView)
    ensures
        m.spec_show_menu().spec_show_menu() == m.spec_show_menu(),
        m.spec_hide_menu().spec_hide_menu() == m.spec_hide_menu(),
        m.spec_show_menu().spec_hide_menu() == m.spec_hide_menu(),
        m.spec_hide_menu().spec_show_menu() == m.spec_show_menu(),
        m.spec_show_menu().state == m.state && m.spec_show_menu().current == m.current
            && m.spec_show_menu().handle == m.handle,
        m.spec_hide_menu().state == m.state && m.spec_hide_menu().current == m.current
            && m.spec_hide_menu().handle == m.handle,
        m.spec_wf() ==> m.spec_show_menu().spec_wf() && m.spec_hide_menu().spec_wf(),
{
}

} // verus!
