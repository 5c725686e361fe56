//! What a loaded core exposes: its kind, its status bits and its settings.
//!
//! The kinds of cores form a closed set, and what a core can do follows from
//! its kind alone.

use super::status::{spec_pow2, spec_set_range, spec_value_of, StatusBitMap, STATUS_BITS};
use vstd::prelude::*;

verus! {

/// What a setting does to the status bits.
#[derive(Clone, Copy, Debug, PartialEq, Eq, Structural)]
pub enum SettingKind {
    /// Pulses one bit.
    Trigger,
    /// Switches one bit.
    Bool,
    /// Holds a number in a range of bits.
    Int,
}

/// A setting of a core: its id, and the status bits `start..end` that it
/// stands for.
#[derive(Clone, Copy, Debug, PartialEq, Eq, Structural)]
pub struct Setting {
    /// The id of the setting.
    pub id: u32,
    /// What the setting does.
    pub kind: SettingKind,
    /// The first of its status bits.
    pub start: u8,
    /// The bit after the last of its status bits.
    pub end: u8,
}

impl Setting {
    /// Whether the bits of the setting lie within the register, and are one
    /// bit for a trigger or a switch and at most 32 bits for a number.
    pub open spec fn spec_wf(self) -> bool {
        &&& self.start < self.end <= STATUS_BITS
        &&& self.end - self.start <= 32
        &&& (self.kind != SettingKind::Int ==> self.end == self.start + 1)
    }

    /// Whether the bits of the setting lie within the register.
    pub fn wf(&self) -> (r: bool)
        ensures
            r == self.spec_wf(),
    {
        self.start < self.end && self.end as usize <= STATUS_BITS && self.end - self.start <= 32
            && (match self.kind {
            SettingKind::Int => true,
            _ => self.end == self.start + 1,
        })
    }
}

/// Why an operation on a core was not done.
#[derive(Clone, Copy, Debug, PartialEq, Eq, Structural)]
pub enum CoreError {
    /// No core is loaded.
    NoCore,
    /// The core has no setting of that id and kind.
    NoSuchSetting,
    /// The core has no settings or status bits at all.
    NotSupported,
}

/// A core for the FPGA with status bits and settings.
#[derive(Debug)]
pub struct MisterFpgaCore {
    /// The name of the core.
    pub name: String,
    /// The mirror of the status bits.
    pub status: StatusBitMap,
    /// The settings of the core.
    pub settings: Vec<Setting>,
    /// Whether the core can save its state and take screenshots.
    pub save_states: bool,
}

/// The first setting of a list with a given id and kind.
pub open spec fn spec_find_setting(settings: Seq<Setting>, id: u32, kind: SettingKind) -> Option<
    Setting,
>
    decreases settings.len(),
{
    if settings.len() == 0 {
        None
    } else if settings[0].id == id && settings[0].kind == kind && settings[0].spec_wf() {
        Some(settings[0])
    } else {
        spec_find_setting(settings.drop_first(), id, kind)
    }
}

impl MisterFpgaCore {
    /// A core of that name with every status bit clear and no setting.
    pub fn new(name: &str) -> (r: MisterFpgaCore)
        ensures
            r.name@ == name@,
            r.settings@.len() == 0,
            r.status@.len() == STATUS_BITS,
            forall|i: int| 0 <= i < STATUS_BITS ==> !r.status@[i],
            !r.save_states,
    {
        MisterFpgaCore {
            name: String::from_str(name),
            status: StatusBitMap::new(),
            settings: Vec::new(),
            save_states: false,
        }
    }

    /// The first well-formed setting with that id and kind.
    pub fn find_setting(&self, id: u32, kind: SettingKind) -> (r: Option<Setting>)
        ensures
            r == spec_find_setting(self.settings@, id, kind),
            r.is_some() ==> r.unwrap().spec_wf() && r.unwrap().id == id && r.unwrap().kind == kind,
    {
        let mut i: usize = 0;
        assert(self.settings@.skip(0) =~= self.settings@);
        while i < self.settings.len()
            invariant
                i <= self.settings@.len(),
                spec_find_setting(self.settings@, id, kind) == spec_find_setting(
                    self.settings@.skip(i as int),
                    id,
                    kind,
                ),
            decreases self.settings.len() - i,
        {
            let s = self.settings[i];
            assert(self.settings@.skip(i as int)[0] == s);
            assert(self.settings@.skip(i as int).drop_first() =~= self.settings@.skip(i as int + 1));
            if s.id == id && setting_kind_eq(s.kind, kind) && s.wf() {
                return Some(s);
            }
            i = i + 1;
        }
        assert(self.settings@.skip(i as int).len() == 0);
        None
    }

    /// A snapshot of the status bits.
    pub fn read_status_bits(&self) -> (r: StatusBitMap)
        ensures
            r@ == self.status@,
    {
        self.status
    }

    /// Replaces the status bits, and hands back the bits to send to the
    /// core.
    pub fn send_status_bits(&mut self, bits: StatusBitMap) -> (sent: StatusBitMap)
        ensures
            final(self).status@ == bits@,
            sent@ == bits@,
            final(self).name == old(self).name,
            final(self).settings == old(self).settings,
            final(self).save_states == old(self).save_states,
    {
        self.status = bits;
        bits
    }
}

fn setting_kind_eq(a: SettingKind, b: SettingKind) -> (r: bool)
    ensures
        r == (a == b),
{
    match (a, b) {
        (SettingKind::Trigger, SettingKind::Trigger) => true,
        (SettingKind::Bool, SettingKind::Bool) => true,
        (SettingKind::Int, SettingKind::Int) => true,
        _ => false,
    }
}

/// A loaded core, by kind.
#[derive(Debug)]
pub enum Core {
    /// A core with status bits and settings.
    MisterCore(MisterFpgaCore),
    /// The menu core, which wraps a core with status bits.
    MenuCore(MisterFpgaCore),
    /// Any other core, of which only the name is known.
    Other {
        /// The name of the core.
        name: String,
    },
}

impl Core {
    /// Whether the core is the menu core.
    pub open spec fn spec_is_menu(&self) -> bool {
        self is MenuCore
    }

    /// Whether the core exposes settings: only a core with status bits that
    /// is not the menu core does.
    pub open spec fn spec_has_settings(&self) -> bool {
        self is MisterCore
    }

    /// The status bits that the core exposes, where it exposes any.
    pub open spec fn spec_status(&self) -> Option<Seq<bool>> {
        match self {
            Core::MisterCore(c) => Some(c.status@),
            Core::MenuCore(c) => Some(c.status@),
            Core::Other { .. } => None,
        }
    }

    /// Whether the core is the menu core.
    pub fn is_menu(&self) -> (r: bool)
        ensures
            r == self.spec_is_menu(),
    {
        match self {
            Core::MenuCore(_) => true,
            _ => false,
        }
    }

    /// The name of the core.
    pub fn name(&self) -> (r: &str)
        ensures
            r@ == (match self {
                Core::MisterCore(c) => c.name@,
                Core::MenuCore(c) => c.name@,
                Core::Other { name } => name@,
            }),
    {
        match self {
            Core::MisterCore(c) => c.name.as_str(),
            Core::MenuCore(c) => c.name.as_str(),
            Core::Other { name } => name.as_str(),
        }
    }

    /// The core with status bits and settings, where the core is one.
    pub fn as_mister_core(&self) -> (r: Option<&MisterFpgaCore>)
        ensures
            match self {
                Core::MisterCore(c) => r == Some(c),
                _ => r.is_none(),
            },
    {
        match self {
            Core::MisterCore(c) => Some(c),
            _ => None,
        }
    }

    /// The core that the menu core wraps, where the core is the menu core.
    pub fn as_menu_core(&self) -> (r: Option<&MisterFpgaCore>)
        ensures
            match self {
                Core::MenuCore(c) => r == Some(c),
                _ => r.is_none(),
            },
    {
        match self {
            Core::MenuCore(c) => Some(c),
            _ => None,
        }
    }

    /// A snapshot of the status bits; `NotSupported` for a core without.
    pub fn read_status_bits(&self) -> (r: Result<StatusBitMap, CoreError>)
        ensures
            match r {
                Ok(bits) => self.spec_status() == Some(bits@),
                Err(e) => self.spec_status().is_none() && e == CoreError::NotSupported,
            },
    {
        match self {
            Core::MisterCore(c) => Ok(c.read_status_bits()),
            Core::MenuCore(c) => Ok(c.read_status_bits()),
            Core::Other { .. } => Err(CoreError::NotSupported),
        }
    }

    /// Whether `after` is this core with its status bits replaced by
    /// `status` and nothing else changed.
    pub open spec fn spec_with_status(&self, after: Core, status: Seq<bool>) -> bool {
        match (*self, after) {
            (Core::MisterCore(a), Core::MisterCore(b)) => b.name == a.name && b.settings
                == a.settings && b.save_states == a.save_states && b.status@ == status,
            (Core::MenuCore(a), Core::MenuCore(b)) => b.name == a.name && b.settings == a.settings
                && b.save_states == a.save_states && b.status@ == status,
            _ => false,
        }
    }

    /// What replacing the status bits by `bits` gives: on a core with status
    /// bits, the core with those bits, and the bits to send; on any other
    /// core `NotSupported`, and the core as it was.
    pub open spec fn spec_send_status_bits_post(
        &self,
        bits: Seq<bool>,
        r: Result<StatusBitMap, CoreError>,
        after: Core,
    ) -> bool {
        match self.spec_status() {
            Some(_) => r.is_ok() && r.unwrap()@ == bits && self.spec_with_status(after, bits),
            None => r == Err::<StatusBitMap, CoreError>(CoreError::NotSupported) && after == *self,
        }
    }

    /// What setting the status bits `start..end` to the low bits of `value`
    /// gives.
    pub open spec fn spec_set_range_post(
        &self,
        start: int,
        end: int,
        value: nat,
        r: Result<StatusBitMap, CoreError>,
        after: Core,
    ) -> bool {
        match self.spec_status() {
            Some(bits) => self.spec_send_status_bits_post(
                spec_set_range(bits, start, end, value),
                r,
                after,
            ),
            None => r == Err::<StatusBitMap, CoreError>(CoreError::NotSupported) && after == *self,
        }
    }

    /// The setting of an id and a kind, or the reason for which the core has
    /// none: `NotSupported` for a core without settings, `NoSuchSetting` for
    /// a core with settings but none of that id and kind.
    pub open spec fn spec_setting(&self, id: u32, kind: SettingKind) -> Result<Setting, CoreError> {
        if !self.spec_has_settings() {
            Err(CoreError::NotSupported)
        } else {
            match spec_find_setting(self.spec_settings(), id, kind) {
                Some(s) => Ok(s),
                None => Err(CoreError::NoSuchSetting),
            }
        }
    }

    /// What pulsing the trigger `id` gives: the status bits to send with the
    /// bit of the trigger set, those to send with the bit clear, and the core
    /// with the latter; or the reason for which the core has no such trigger,
    /// and the core as it was.
    pub open spec fn spec_trigger_post(
        &self,
        id: u32,
        r: Result<(StatusBitMap, StatusBitMap), CoreError>,
        after: Core,
    ) -> bool {
        match self.spec_setting(id, SettingKind::Trigger) {
            Ok(s) => {
                let bits = self.spec_status().unwrap();
                &&& r.is_ok()
                &&& r.unwrap().0@ == bits.update(s.start as int, true)
                &&& r.unwrap().1@ == bits.update(s.start as int, false)
                &&& self.spec_with_status(after, bits.update(s.start as int, false))
            },
            Err(e) => r == Err::<(StatusBitMap, StatusBitMap), CoreError>(e) && after == *self,
        }
    }

    /// What switching the switch `id` gives: the value, and the core with
    /// the bit of the switch at that value; or the reason for which the core
    /// has no such switch, and the core as it was.
    pub open spec fn spec_bool_option_post(
        &self,
        id: u32,
        value: bool,
        r: Result<bool, CoreError>,
        after: Core,
    ) -> bool {
        match self.spec_setting(id, SettingKind::Bool) {
            Ok(s) => r == Ok::<bool, CoreError>(value) && self.spec_with_status(
                after,
                self.spec_status().unwrap().update(s.start as int, value),
            ),
            Err(e) => r == Err::<bool, CoreError>(e) && after == *self,
        }
    }

    /// What putting a number into the setting `id` gives: the number modulo
    /// two to the power of the number of bits of the setting, and the core
    /// with the bits of the setting holding it; or the reason for which the
    /// core has no such setting, and the core as it was.
    pub open spec fn spec_int_option_post(
        &self,
        id: u32,
        value: u32,
        r: Result<u32, CoreError>,
        after: Core,
    ) -> bool {
        match self.spec_setting(id, SettingKind::Int) {
            Ok(s) => {
                let bits = spec_set_range(
                    self.spec_status().unwrap(),
                    s.start as int,
                    s.end as int,
                    value as nat,
                );
                &&& r.is_ok()
                &&& r.unwrap() as nat == value as nat % spec_pow2((s.end - s.start) as nat)
                &&& r.unwrap() as nat == spec_value_of(bits, s.start as int, s.end as int)
                &&& self.spec_with_status(after, bits)
            },
            Err(e) => r == Err::<u32, CoreError>(e) && after == *self,
        }
    }

    /// Replaces the status bits and hands back the bits to send to the core;
    /// `NotSupported`, and nothing changed, for a core without status bits.
    pub fn send_status_bits(&mut self, bits: StatusBitMap) -> (r: Result<StatusBitMap, CoreError>)
        ensures
            old(self).spec_send_status_bits_post(bits@, r, *final(self)),
    {
        match self {
            Core::MisterCore(c) => Ok(c.send_status_bits(bits)),
            Core::MenuCore(c) => Ok(c.send_status_bits(bits)),
            Core::Other { .. } => Err(CoreError::NotSupported),
        }
    }

    /// The settings that the core exposes: those of a core with status bits
    /// that is not the menu core, none of any other.
    pub open spec fn spec_settings(&self) -> Seq<Setting> {
        match self {
            Core::MisterCore(c) => c.settings@,
            _ => Seq::empty(),
        }
    }

    /// Sets the status bits `start..end` to the low bits of `value` and
    /// hands back the bits to send to the core; `NotSupported`, and nothing
    /// changed, for a core without status bits.
    pub fn set_range(&mut self, start: usize, end: usize, value: u32) -> (r: Result<
        StatusBitMap,
        CoreError,
    >)
        requires
            start <= end <= STATUS_BITS,
        ensures
            old(self).spec_set_range_post(start as int, end as int, value as nat, r, *final(self)),
    {
        match self.read_status_bits() {
            Ok(bits) => {
                let mut bits = bits;
                bits.set_range(start, end, value);
                self.send_status_bits(bits)
            },
            Err(e) => Err(e),
        }
    }

    fn setting(&self, id: u32, kind: SettingKind) -> (r: Result<Setting, CoreError>)
        ensures
            r == self.spec_setting(id, kind),
            r.is_ok() ==> r.unwrap().spec_wf() && self.spec_status().is_some(),
    {
        match self {
            Core::MisterCore(c) => match c.find_setting(id, kind) {
                Some(s) => Ok(s),
                None => Err(CoreError::NoSuchSetting),
            },
            _ => Err(CoreError::NotSupported),
        }
    }

    /// Pulses the bit of a trigger: the result holds the status bits to send
    /// with the bit set, and then those to send with the bit clear, which are
    /// the bits that the core keeps.
    pub fn trigger(&mut self, id: u32) -> (r: Result<(StatusBitMap, StatusBitMap), CoreError>)
        ensures
            old(self).spec_trigger_post(id, r, *final(self)),
    {
        let s = match self.setting(id, SettingKind::Trigger) {
            Ok(s) => s,
            Err(e) => {
                return Err(e);
            },
        };
        match self {
            Core::MisterCore(c) => {
                let mut pressed = c.status;
                pressed.set(s.start as usize, true);
                let mut released = c.status;
                released.set(s.start as usize, false);
                c.status = released;
                Ok((pressed, released))
            },
            _ => Err(CoreError::NotSupported),
        }
    }

    /// Switches the bit of a switch, and hands back what the switch now
    /// holds.
    pub fn bool_option(&mut self, id: u32, value: bool) -> (r: Result<bool, CoreError>)
        ensures
            old(self).spec_bool_option_post(id, value, r, *final(self)),
    {
        let s = match self.setting(id, SettingKind::Bool) {
            Ok(s) => s,
            Err(e) => {
                return Err(e);
            },
        };
        match self {
            Core::MisterCore(c) => {
                c.status.set(s.start as usize, value);
                Ok(value)
            },
            _ => Err(CoreError::NotSupported),
        }
    }

    /// Puts a number into the bits of a setting, and hands back what the
    /// setting now holds: the number modulo two to the power of the number of
    /// its bits.
    pub fn int_option(&mut self, id: u32, value: u32) -> (r: Result<u32, CoreError>)
        ensures
            old(self).spec_int_option_post(id, value, r, *final(self)),
    {
        let s = match self.setting(id, SettingKind::Int) {
            Ok(s) => s,
            Err(e) => {
                return Err(e);
            },
        };
        match self {
            Core::MisterCore(c) => {
                c.status.set_range(s.start as usize, s.end as usize, value);
                proof {
                    super::status::law_set_range_then_read(
                        old(self).spec_status().unwrap(),
                        s.start as int,
                        s.end as int,
                        value as nat,
                    );
                }
                Ok(c.status.get_range(s.start as usize, s.end as usize))
            },
            _ => Err(CoreError::NotSupported),
        }
    }
}

} // verus!
