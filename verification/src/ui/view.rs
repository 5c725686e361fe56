//! The top-level views, and the inputs that a view is told of.

use vstd::prelude::*;

verus! {

/// The top-level views.
#[derive(Clone, Copy, Debug, PartialEq, Eq, Structural)]
pub enum TopLevelViewType {
    /// The main menu.
    MainMenu,
    /// The list of cores.
    Cores,
    /// The settings.
    Settings,
    /// The tester of inputs.
    InputTester,
    /// The page about the firmware.
    About,
    /// Leaving the firmware.
    Quit,
}

impl Default for TopLevelViewType {
    fn default() -> (r: TopLevelViewType)
        ensures
            r == TopLevelViewType::MainMenu,
    {
        TopLevelViewType::MainMenu
    }
}

impl TopLevelViewType {
    /// The view to which going back leads.
    pub fn back() -> (r: TopLevelViewType)
        ensures
            r == TopLevelViewType::MainMenu,
    {
        TopLevelViewType::MainMenu
    }

    /// Whether the view has a panel of its own.
    pub open spec fn spec_has_panel(self) -> bool {
        match self {
            TopLevelViewType::MainMenu => true,
            TopLevelViewType::Settings => true,
            TopLevelViewType::Cores => true,
            TopLevelViewType::InputTester => true,
            TopLevelViewType::About => false,
            TopLevelViewType::Quit => false,
        }
    }

    /// The view whose panel is run for this view; `None` for a view that has
    /// no panel, at which the firmware is left.
    pub fn function(&self) -> (r: Option<TopLevelViewType>)
        ensures
            r == (if self.spec_has_panel() {
                Some(*self)
            } else {
                None
            }),
    {
        match self {
            TopLevelViewType::MainMenu => Some(TopLevelViewType::MainMenu),
            TopLevelViewType::About => None,
            TopLevelViewType::Settings => Some(TopLevelViewType::Settings),
            TopLevelViewType::Cores => Some(TopLevelViewType::Cores),
            TopLevelViewType::InputTester => Some(TopLevelViewType::InputTester),
            TopLevelViewType::Quit => None,
        }
    }

    /// The view after the panel of this view has run and asked for `next`:
    /// `next`, but leaving the firmware where this view has no panel.
    pub fn step(&self, next: TopLevelViewType) -> (r: TopLevelViewType)
        ensures
            r == (if self.spec_has_panel() {
                next
            } else {
                TopLevelViewType::Quit
            }),
    {
        match self.function() {
            None => TopLevelViewType::Quit,
            Some(_) => next,
        }
    }
}

/// An input that a view is told of.
#[derive(Clone, Copy, Debug, PartialEq, Eq, Structural)]
pub enum Key {
    /// A key of a keyboard, by scancode.
    Key(u32),
    /// A button of a controller.
    Button(u8),
    /// An axis of a controller.
    Axis(u8),
}

} // verus!
