//! The decisions of a text menu: what it shows, which of its items pass the
//! filter that the user types, and what an action of the user leads to.

use crate::text::{
    contains, lemma_find_char_first, pop_char, push_char, spec_contains, spec_find_char,
    spec_pop, spec_to_lowercase, to_lowercase,
};
use vstd::prelude::*;

verus! {

/// What a menu shows besides its items.
#[derive(Clone, Copy, Debug, PartialEq, Eq, Structural)]
pub struct MenuFlags {
    /// Whether the button that goes back is shown.
    pub show_back_button: bool,
    /// Whether the item that goes back is shown.
    pub show_back: bool,
    /// Whether the button for details is shown.
    pub show_details: bool,
    /// Whether the button that changes the order is shown.
    pub show_sort: bool,
    /// Whether a separator follows the items in front.
    pub separator1: bool,
    /// Whether a separator follows the items in the middle.
    pub separator2: bool,
    /// Whether a separator stands before the item that goes back.
    pub separator3: bool,
}

/// What a menu shows besides its items: the way back where there is one and
/// it is asked for, the details where they have a label, the change of
/// order where there is one and it is not switched off, and the separators
/// between the groups of items that are not empty.
pub fn menu_flags(
    has_back: bool,
    show_back_menu: bool,
    has_detail_label: bool,
    show_sort: Option<bool>,
    has_sort: bool,
    prefix_len: usize,
    items_len: usize,
    suffix_len: usize,
) -> (r: MenuFlags)
    ensures
        r == (MenuFlags {
            show_back_button: has_back && show_back_menu,
            show_back: has_back && show_back_menu,
            show_details: has_detail_label,
            show_sort: show_sort != Some(false) && has_sort,
            separator1: prefix_len > 0,
            separator2: items_len > 0 && suffix_len > 0,
            separator3: has_back && show_back_menu,
        }),
{
    let show_back_button = has_back && show_back_menu;
    let show_back = show_back_button && show_back_menu;
    let sort = match show_sort {
        Some(s) => s,
        None => true,
    };
    MenuFlags {
        show_back_button,
        show_back,
        show_details: has_detail_label,
        show_sort: sort && has_sort,
        separator1: prefix_len != 0,
        separator2: items_len != 0 && suffix_len != 0,
        separator3: show_back,
    }
}

/// The label of the button that changes the order: `Sort`, followed by a
/// hyphen and the order where one is named.
pub fn sort_field(sort_by: Option<&str>) -> (r: String)
    ensures
        r@ == (match sort_by {
            Some(f) => "Sort"@ + " - "@ + f@,
            None => "Sort"@,
        }),
{
    let mut r = String::from_str("Sort");
    if let Some(f) = sort_by {
        r.append(" - ");
        r.append(f);
    }
    r
}

/// Whether an item passes the filter, whatever the case of the two.
pub open spec fn spec_item_visible(filter: Seq<char>, label: Seq<char>) -> bool {
    filter.len() == 0 || label.len() == 0 || spec_contains(
        spec_to_lowercase(label),
        spec_to_lowercase(filter),
    )
}

/// Whether an item passes the filter: every item passes an empty filter, an
/// item without label passes every filter, and any other item passes where
/// its label holds the filter, whatever the case of the two.
pub fn item_visible(filter: &str, label: &str) -> (r: bool)
    ensures
        r == spec_item_visible(filter@, label@),
{
    if filter.unicode_len() == 0 || label.unicode_len() == 0 {
        true
    } else {
        let l = to_lowercase(label);
        let f = to_lowercase(filter);
        contains(l.as_str(), f.as_str())
    }
}

/// The place of an item in the whole menu, given its place among the items
/// in the middle: behind the items in front and the separator that follows
/// them; `None` where that is too large a number.
pub fn selected_code(selected: u32, prefix_len: usize) -> (r: Option<i32>)
    ensures
        match r {
            Some(code) => code as int == selected as int + prefix_len as int + 1,
            None => selected as int + prefix_len as int + 1 > i32::MAX,
        },
{
    if prefix_len >= i32::MAX as usize {
        return None;
    }
    let total: u64 = selected as u64 + prefix_len as u64 + 1;
    if total > i32::MAX as u64 {
        None
    } else {
        Some(total as i32)
    }
}

/// The characters of a text up to its first NUL.
pub open spec fn spec_until_nul(text: Seq<char>) -> Seq<char> {
    text.subrange(0, spec_find_char(text, '\0', 0))
}

/// Takes the last character off the filter.
pub fn filter_backspace(filter: &mut String)
    ensures
        final(filter)@ == spec_pop(old(filter)@),
{
    pop_char(filter);
}

/// Adds to the filter the characters that were typed, up to the first NUL.
pub fn filter_text_input(filter: &mut String, text: &[char])
    ensures
        final(filter)@ == old(filter)@ + spec_until_nul(text@),
{
    let mut i: usize = 0;
    assert(filter@ =~= old(filter)@ + text@.subrange(0, 0));
    while i < text.len() && text[i] != '\0'
        invariant
            i <= text@.len(),
            filter@ == old(filter)@ + text@.subrange(0, i as int),
            forall|j: int| 0 <= j < i ==> text@[j] != '\0',
        decreases text.len() - i,
    {
        push_char(filter, text[i]);
        i = i + 1;
        assert(filter@ =~= old(filter)@ + text@.subrange(0, i as int));
    }
    proof {
        lemma_find_char_first(text@, '\0', 0, i as int);
    }
}

/// An action of the user on a menu.
#[derive(Clone, Copy, Debug, PartialEq, Eq, Structural)]
pub enum MenuAction {
    /// Go back.
    Back,
    /// Take the item under the cursor.
    Select,
    /// Change the order.
    ChangeSort,
    /// Show the details of the item under the cursor.
    ShowOptions,
    /// The backspace key.
    Backspace,
    /// Text was typed.
    TextInput,
    /// Any other action.
    Other,
}

/// What an action leads to.
#[derive(Clone, Copy, Debug, PartialEq, Eq)]
pub enum MenuOutcome<R> {
    /// The menu is left with a result.
    Return(R),
    /// The filter changes and the menu is drawn again.
    Redraw,
    /// Nothing: the menu stays as it is.
    Stay,
}

/// What an action leads to, given what the menu offers: the result of going
/// back, the result of taking the item under the cursor, the result of
/// changing the order, and the result of showing the details of the item
/// under the cursor, each where there is one.
pub fn on_action<R: Copy>(
    action: MenuAction,
    back: Option<R>,
    selected: Option<R>,
    sort: Option<R>,
    details: Option<R>,
) -> (r: MenuOutcome<R>)
    ensures
        r == (match action {
            MenuAction::Back => match back {
                Some(b) => MenuOutcome::Return(b),
                None => MenuOutcome::Stay,
            },
            MenuAction::Select => match selected {
                Some(s) => MenuOutcome::Return(s),
                None => MenuOutcome::Stay,
            },
            MenuAction::ChangeSort => match sort {
                Some(s) => MenuOutcome::Return(s),
                None => MenuOutcome::Stay,
            },
            MenuAction::ShowOptions => match details {
                Some(d) => MenuOutcome::Return(d),
                None => MenuOutcome::Stay,
            },
            MenuAction::Backspace => MenuOutcome::Redraw,
            MenuAction::TextInput => MenuOutcome::Redraw,
            MenuAction::Other => MenuOutcome::Stay,
        }),
{
    match action {
        MenuAction::Back => match back {
            Some(b) => MenuOutcome::Return(b),
            None => MenuOutcome::Stay,
        },
        MenuAction::Select => match selected {
            Some(s) => MenuOutcome::Return(s),
            None => MenuOutcome::Stay,
        },
        MenuAction::ChangeSort => match sort {
            Some(s) => MenuOutcome::Return(s),
            None => MenuOutcome::Stay,
        },
        MenuAction::ShowOptions => match details {
            Some(d) => MenuOutcome::Return(d),
            None => MenuOutcome::Stay,
        },
        MenuAction::Backspace => MenuOutcome::Redraw,
        MenuAction::TextInput => MenuOutcome::Redraw,
        MenuAction::Other => MenuOutcome::Stay,
    }
}

} // verus!
