//! The commands that a shortcut can be bound to.

use crate::cores::model::Core;
use crate::cores::status::StatusBitMap;
use crate::text::{push_decimal, push_replaced, spec_decimal, spec_replace_char, str_eq};
use vstd::prelude::*;

verus! {

/// A command that a shortcut can be bound to.
#[derive(Debug, Clone, Copy, PartialEq, Eq, Structural)]
pub enum ShortcutCommand {
    /// Show the menu of the core.
    ShowCoreMenu,
    /// Reset the core.
    ResetCore,
    /// Quit the core and return to the main menu.
    QuitCore,
    /// Take a screenshot.
    TakeScreenshot,
    /// A command of the core itself, named by the id of one of its
    /// settings.
    CoreSpecificCommand(u32),
}

/// What came of a command.
#[derive(Debug)]
pub enum CommandResult {
    /// The command was carried out.
    Success,
    /// The command was not carried out, with the reason.
    Failure(String),
    /// The core is to be quit.
    QuitCore,
}

/// The key that a command is bound to unless the user binds another.
#[derive(Debug, Clone, Copy, PartialEq, Eq, Structural)]
pub enum ShortcutKey {
    /// The F10 key.
    F10,
    /// The F11 key.
    F11,
    /// The F12 key.
    F12,
    /// The system-request key.
    SysReq,
}

/// What is left to do outside once a command has been looked at.
#[derive(Debug, Clone, Copy)]
pub enum ShortcutEffect {
    /// Nothing.
    Nothing,
    /// Open the menu of the core; the result of the command is that of
    /// `after_core_menu`.
    OpenCoreMenu,
    /// Take a screenshot and store it.
    TakeScreenshot,
    /// Send the status bits to the core: first with the bit set, then with
    /// the bit clear.
    SendStatus {
        /// The status bits with the bit set.
        pressed: StatusBitMap,
        /// The status bits with the bit clear.
        released: StatusBitMap,
    },
}

impl ShortcutCommand {
    /// The name under which the command is stored in the settings; a command
    /// of the core itself has none.
    pub open spec fn spec_setting_name(self) -> Option<Seq<char>> {
        match self {
            ShortcutCommand::ShowCoreMenu => Some("show_menu"@),
            ShortcutCommand::ResetCore => Some("reset_core"@),
            ShortcutCommand::QuitCore => Some("quit_core"@),
            ShortcutCommand::TakeScreenshot => Some("take_screenshot"@),
            ShortcutCommand::CoreSpecificCommand(_) => None,
        }
    }

    /// The command stored under a name.
    pub open spec fn spec_from_str(s: Seq<char>) -> Option<ShortcutCommand> {
        if s == "show_menu"@ {
            Some(ShortcutCommand::ShowCoreMenu)
        } else if s == "reset_core"@ {
            Some(ShortcutCommand::ResetCore)
        } else if s == "quit_core"@ {
            Some(ShortcutCommand::QuitCore)
        } else if s == "take_screenshot"@ {
            Some(ShortcutCommand::TakeScreenshot)
        } else {
            None
        }
    }

    /// The command in words.
    pub open spec fn spec_to_string(self) -> Seq<char> {
        match self {
            ShortcutCommand::ShowCoreMenu => "Show Menu"@,
            ShortcutCommand::ResetCore => "Reset Core"@,
            ShortcutCommand::QuitCore => "Quit Core"@,
            ShortcutCommand::TakeScreenshot => "Take Screenshot"@,
            ShortcutCommand::CoreSpecificCommand(id) => "Core Specific Command "@ + spec_decimal(
                id as nat,
            ),
        }
    }

    /// The commands that every core has, in the order in which they are
    /// listed.
    pub fn globals() -> (r: Vec<ShortcutCommand>)
        ensures
            r@ == seq![
                ShortcutCommand::ShowCoreMenu,
                ShortcutCommand::ResetCore,
                ShortcutCommand::QuitCore,
                ShortcutCommand::TakeScreenshot,
            ],
    {
        let mut r: Vec<ShortcutCommand> = Vec::new();
        r.push(ShortcutCommand::ShowCoreMenu);
        r.push(ShortcutCommand::ResetCore);
        r.push(ShortcutCommand::QuitCore);
        r.push(ShortcutCommand::TakeScreenshot);
        assert(r@ =~= seq![
            ShortcutCommand::ShowCoreMenu,
            ShortcutCommand::ResetCore,
            ShortcutCommand::QuitCore,
            ShortcutCommand::TakeScreenshot,
        ]);
        r
    }

    /// The name under which the command is stored in the settings.
    pub fn setting_name(&self) -> (r: Option<&'static str>)
        ensures
            match r {
                Some(name) => self.spec_setting_name() == Some(name@),
                None => self.spec_setting_name().is_none(),
            },
    {
        match self {
            ShortcutCommand::ShowCoreMenu => Some("show_menu"),
            ShortcutCommand::ResetCore => Some("reset_core"),
            ShortcutCommand::QuitCore => Some("quit_core"),
            ShortcutCommand::TakeScreenshot => Some("take_screenshot"),
            ShortcutCommand::CoreSpecificCommand(_) => None,
        }
    }

    /// The command stored under a name; an error for a name that no command
    /// is stored under.
    pub fn from_str(s: &str) -> (r: Result<ShortcutCommand, &'static str>)
        ensures
            match r {
                Ok(command) => ShortcutCommand::spec_from_str(s@) == Some(command)
                    && command.spec_setting_name() == Some(s@),
                Err(message) => ShortcutCommand::spec_from_str(s@).is_none() && message@
                    == "Invalid shortcut"@,
            },
    {
        if str_eq(s, "show_menu") {
            Ok(ShortcutCommand::ShowCoreMenu)
        } else if str_eq(s, "reset_core") {
            Ok(ShortcutCommand::ResetCore)
        } else if str_eq(s, "quit_core") {
            Ok(ShortcutCommand::QuitCore)
        } else if str_eq(s, "take_screenshot") {
            Ok(ShortcutCommand::TakeScreenshot)
        } else {
            Err("Invalid shortcut")
        }
    }

    /// The command in words.
    pub fn to_string(&self) -> (r: String)
        ensures
            r@ == self.spec_to_string(),
    {
        match self {
            ShortcutCommand::ShowCoreMenu => String::from_str("Show Menu"),
            ShortcutCommand::ResetCore => String::from_str("Reset Core"),
            ShortcutCommand::QuitCore => String::from_str("Quit Core"),
            ShortcutCommand::TakeScreenshot => String::from_str("Take Screenshot"),
            ShortcutCommand::CoreSpecificCommand(id) => {
                let mut r = String::from_str("Core Specific Command ");
                push_decimal(&mut r, *id as u64);
                r
            },
        }
    }

    /// The key that the command is bound to unless the user binds another.
    pub fn default_shortcut(&self) -> (r: Option<ShortcutKey>)
        ensures
            r == (match self {
                ShortcutCommand::ShowCoreMenu => Some(ShortcutKey::F12),
                ShortcutCommand::ResetCore => Some(ShortcutKey::F11),
                ShortcutCommand::QuitCore => Some(ShortcutKey::F10),
                ShortcutCommand::TakeScreenshot => Some(ShortcutKey::SysReq),
                ShortcutCommand::CoreSpecificCommand(_) => None,
            }),
    {
        match self {
            ShortcutCommand::ShowCoreMenu => Some(ShortcutKey::F12),
            ShortcutCommand::ResetCore => Some(ShortcutKey::F11),
            ShortcutCommand::QuitCore => Some(ShortcutKey::F10),
            ShortcutCommand::TakeScreenshot => Some(ShortcutKey::SysReq),
            ShortcutCommand::CoreSpecificCommand(_) => None,
        }
    }

    /// Carries the command out on the core, as far as that is done on the
    /// core's own state, and says what is left to do outside.
    ///
    /// Showing the menu and taking a screenshot are left to do outside.
    /// Resetting pulses status bit 0 of a core that has status bits. Quitting
    /// asks for the core to be quit. A command of the core itself pulses the
    /// trigger of that id, and fails where the core has none.
    pub fn execute(&self, core: &mut Core) -> (r: (CommandResult, ShortcutEffect))
        ensures
            match *self {
                ShortcutCommand::ShowCoreMenu => r.0 is Success && r.1 is OpenCoreMenu && *final(core)
                    == *old(core),
                ShortcutCommand::QuitCore => r.0 is QuitCore && r.1 is Nothing && *final(core)
                    == *old(core),
                ShortcutCommand::TakeScreenshot => r.0 is Success && r.1 is TakeScreenshot
                    && *final(core) == *old(core),
                ShortcutCommand::ResetCore => {
                    &&& r.0 is Success
                    &&& match old(core).spec_status() {
                        Some(bits) => {
                            &&& r.1 matches ShortcutEffect::SendStatus { pressed, released }
                            &&& pressed@ == bits.update(0, true)
                            &&& released@ == bits.update(0, false)
                            &&& old(core).spec_with_status(*final(core), released@)
                        },
                        None => r.1 is Nothing && *final(core) == *old(core),
                    }
                },
                ShortcutCommand::CoreSpecificCommand(id) => match old(core).spec_setting(
                    id,
                    crate::cores::model::SettingKind::Trigger,
                ) {
                    Ok(_) => {
                        &&& r.0 is Success
                        &&& r.1 matches ShortcutEffect::SendStatus { pressed, released }
                        &&& old(core).spec_trigger_post(
                            id,
                            Ok((pressed, released)),
                            *final(core),
                        )
                    },
                    Err(_) => {
                        &&& r.1 is Nothing
                        &&& *final(core) == *old(core)
                        &&& r.0 matches CommandResult::Failure(message)
                        &&& message@ == "Core-specific command not found"@
                    },
                },
            },
    {
        match self {
            ShortcutCommand::ShowCoreMenu => (CommandResult::Success, ShortcutEffect::OpenCoreMenu),
            ShortcutCommand::ResetCore => {
                match core.read_status_bits() {
                    Ok(bits) => {
                        let mut pressed = bits;
                        pressed.set(0, true);
                        let mut released = bits;
                        released.set(0, false);
                        let _ = core.send_status_bits(released);
                        (CommandResult::Success, ShortcutEffect::SendStatus { pressed, released })
                    },
                    Err(_) => (CommandResult::Success, ShortcutEffect::Nothing),
                }
            },
            ShortcutCommand::QuitCore => (CommandResult::QuitCore, ShortcutEffect::Nothing),
            ShortcutCommand::TakeScreenshot => (CommandResult::Success, ShortcutEffect::TakeScreenshot),
            ShortcutCommand::CoreSpecificCommand(id) => {
                match core.trigger(*id) {
                    Ok((pressed, released)) => (
                        CommandResult::Success,
                        ShortcutEffect::SendStatus { pressed, released },
                    ),
                    Err(_) => (
                        CommandResult::Failure(String::from_str("Core-specific command not found")),
                        ShortcutEffect::Nothing,
                    ),
                }
            },
        }
    }

    /// The result of showing the menu of the core, given whether the menu
    /// was left by asking to quit.
    pub fn after_core_menu(quit: bool) -> (r: CommandResult)
        ensures
            quit ==> r is QuitCore,
            !quit ==> r is Success,
    {
        if quit {
            CommandResult::QuitCore
        } else {
            CommandResult::Success
        }
    }
}

/// The name of the file of a screenshot: the name of the core with its
/// spaces replaced by underscores, an underscore, the time stamp, and
/// `.png`.
pub open spec fn spec_screenshot_file_name(core_name: Seq<char>, timestamp: Seq<char>) -> Seq<
    char,
> {
    spec_replace_char(core_name, ' ', '_') + "_"@ + timestamp + ".png"@
}

/// The name of the file of a screenshot.
pub fn screenshot_file_name(core_name: &str, timestamp: &str) -> (r: String)
    ensures
        r@ == spec_screenshot_file_name(core_name@, timestamp@),
{
    let mut r = String::new();
    push_replaced(&mut r, core_name, ' ', '_');
    r.append("_");
    r.append(timestamp);
    r.append(".png");
    assert(r@ =~= spec_screenshot_file_name(core_name@, timestamp@));
    r
}

} // verus!
