//! The decisions of the loop that runs while a core is on screen.
//!
//! The loop hands every event to the core, but for the menu key, which opens
//! the menu of the core. Around the loop, the overlay is hidden first, or the
//! menu is opened first where that is asked for, and the menu core is loaded
//! again at the end.

use vstd::prelude::*;

verus! {

/// An event of the platform, as far as the loop looks at it.
#[derive(Clone, Copy, Debug, PartialEq, Eq, Structural)]
pub enum LoopEvent {
    /// A key went down.
    KeyDown {
        /// Whether the key is the menu key.
        menu_key: bool,
        /// The scancode of the key.
        scancode: u32,
    },
    /// A button of a joystick went down.
    JoyButtonDown {
        /// The number of the joystick, counted from 1.
        which: u32,
        /// The number of the button.
        button_idx: u8,
    },
    /// A button of a joystick went up.
    JoyButtonUp {
        /// The number of the joystick, counted from 1.
        which: u32,
        /// The number of the button.
        button_idx: u8,
    },
    /// Any other event.
    Other,
}

/// What the loop does with an event.
#[derive(Clone, Copy, Debug, PartialEq, Eq, Structural)]
pub enum LoopAction {
    /// Open the menu of the core.
    OpenMenu,
    /// Send a key to the core.
    SendKey {
        /// The scancode, cut to a byte.
        scancode: u8,
    },
    /// Tell the core that a button of a joystick went down.
    JoyButtonDown {
        /// The number of the joystick, counted from 0 and cut to a byte.
        joystick_idx: u8,
        /// The number of the button.
        button: u8,
    },
    /// Tell the core that a button of a joystick went up.
    JoyButtonUp {
        /// The number of the joystick, counted from 0 and cut to a byte.
        joystick_idx: u8,
        /// The number of the button.
        button: u8,
    },
    /// Nothing.
    Nothing,
}

/// What the loop does with an event.
pub open spec fn spec_on_event(ev: LoopEvent) -> LoopAction {
    match ev {
        LoopEvent::KeyDown { menu_key, scancode } => if menu_key {
            LoopAction::OpenMenu
        } else {
            LoopAction::SendKey { scancode: (scancode % 256) as u8 }
        },
        LoopEvent::JoyButtonDown { which, button_idx } => LoopAction::JoyButtonDown {
            joystick_idx: ((which - 1) % 256) as u8,
            button: button_idx,
        },
        LoopEvent::JoyButtonUp { which, button_idx } => LoopAction::JoyButtonUp {
            joystick_idx: ((which - 1) % 256) as u8,
            button: button_idx,
        },
        LoopEvent::Other => LoopAction::Nothing,
    }
}

/// Whether an event is one that the platform can hand out: joysticks are
/// counted from 1.
pub open spec fn spec_event_valid(ev: LoopEvent) -> bool {
    match ev {
        LoopEvent::JoyButtonDown { which, .. } => which >= 1,
        LoopEvent::JoyButtonUp { which, .. } => which >= 1,
        _ => true,
    }
}

/// Decides what the loop does with an event: the menu key opens the menu,
/// any other key goes to the core, and so do the buttons of the joysticks,
/// which the core counts from 0.
pub fn on_event(ev: LoopEvent) -> (r: LoopAction)
    requires
        spec_event_valid(ev),
    ensures
        r == spec_on_event(ev),
{
    match ev {
        LoopEvent::KeyDown { menu_key, scancode } => {
            if menu_key {
                LoopAction::OpenMenu
            } else {
                LoopAction::SendKey { scancode: (scancode % 256) as u8 }
            }
        },
        LoopEvent::JoyButtonDown { which, button_idx } => LoopAction::JoyButtonDown {
            joystick_idx: ((which - 1) % 256) as u8,
            button: button_idx,
        },
        LoopEvent::JoyButtonUp { which, button_idx } => LoopAction::JoyButtonUp {
            joystick_idx: ((which - 1) % 256) as u8,
            button: button_idx,
        },
        LoopEvent::Other => LoopAction::Nothing,
    }
}

/// Where running a core stands.
#[derive(Clone, Copy, Debug, PartialEq, Eq, Structural)]
pub enum LoopPhase {
    /// Nothing has been done yet.
    Start,
    /// The menu of the core is open, before the loop has run.
    MenuFirst,
    /// The loop runs.
    Running,
    /// The menu core is being loaded again.
    Ending,
    /// All is done.
    Done,
}

/// What is done next where running a core stands.
#[derive(Clone, Copy, Debug, PartialEq, Eq, Structural)]
pub enum LoopStep {
    /// Hide the toolbar and the overlay, then run the loop.
    HideAndRun,
    /// Hide the toolbar, then open the menu of the core.
    HideAndOpenMenu,
    /// Run the loop.
    Run,
    /// Load the menu core and show the toolbar.
    LoadMenu,
    /// Nothing is left to do.
    Finished,
}

/// What the outside reports once a step is done.
#[derive(Clone, Copy, Debug, PartialEq, Eq, Structural)]
pub enum LoopReport {
    /// The menu of the core was left; `quit` says whether by asking to
    /// quit.
    MenuClosed {
        /// Whether the menu was left by asking to quit.
        quit: bool,
    },
    /// The step is done.
    Completed,
}

/// The first step of running a core: the menu of the core is opened first
/// where that is asked for, else the overlay is hidden and the loop runs.
pub fn start_core_loop(should_show_menu: bool) -> (r: (LoopPhase, LoopStep))
    ensures
        r == (if should_show_menu {
            (LoopPhase::MenuFirst, LoopStep::HideAndOpenMenu)
        } else {
            (LoopPhase::Running, LoopStep::HideAndRun)
        }),
{
    if should_show_menu {
        (LoopPhase::MenuFirst, LoopStep::HideAndOpenMenu)
    } else {
        (LoopPhase::Running, LoopStep::HideAndRun)
    }
}

/// The phase and the step that follow a report.
pub open spec fn spec_run_core_loop(phase: LoopPhase, report: LoopReport) -> (LoopPhase, LoopStep) {
    match phase {
        LoopPhase::Start => (LoopPhase::Running, LoopStep::HideAndRun),
        LoopPhase::MenuFirst => match report {
            LoopReport::MenuClosed { quit: false } => (LoopPhase::Running, LoopStep::Run),
            _ => (LoopPhase::Ending, LoopStep::LoadMenu),
        },
        LoopPhase::Running => (LoopPhase::Ending, LoopStep::LoadMenu),
        LoopPhase::Ending => (LoopPhase::Done, LoopStep::Finished),
        LoopPhase::Done => (LoopPhase::Done, LoopStep::Finished),
    }
}

/// Decides what follows a report: after the menu, the loop runs unless the
/// menu was left by asking to quit; after the loop, the menu core is loaded
/// again; after that, nothing is left to do.
pub fn run_core_loop(phase: LoopPhase, report: LoopReport) -> (r: (LoopPhase, LoopStep))
    ensures
        r == spec_run_core_loop(phase, report),
{
    match phase {
        LoopPhase::Start => (LoopPhase::Running, LoopStep::HideAndRun),
        LoopPhase::MenuFirst => match report {
            LoopReport::MenuClosed { quit } => {
                if quit {
                    (LoopPhase::Ending, LoopStep::LoadMenu)
                } else {
                    (LoopPhase::Running, LoopStep::Run)
                }
            },
            LoopReport::Completed => (LoopPhase::Ending, LoopStep::LoadMenu),
        },
        LoopPhase::Running => (LoopPhase::Ending, LoopStep::LoadMenu),
        LoopPhase::Ending => (LoopPhase::Done, LoopStep::Finished),
        LoopPhase::Done => (LoopPhase::Done, LoopStep::Finished),
    }
}

/// Whether the loop goes on after the menu of the core was opened from
/// within it: it ends where the menu was left by asking to quit.
pub fn loop_continues_after_menu(quit: bool) -> (r: bool)
    ensures
        r == !quit,
{
    !quit
}

/// However running a core goes, the menu core is loaded again before all is
/// done: the step that leads to the last phase is always the loading of the
/// menu core.
pub proof fn law_core_loop_ends_in_menu(phase: LoopPhase, report: LoopReport)
    ensures
        spec_run_core_loop(phase, report).0 == LoopPhase::Ending <==> spec_run_core_loop(
            phase,
            report,
        ).1 == LoopStep::LoadMenu,
        spec_run_core_loop(phase, report).0 == LoopPhase::Done ==> phase == LoopPhase::Ending
            || phase == LoopPhase::Done,
{
}

} // verus!
