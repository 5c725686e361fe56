//! The handlers of the commands that shortcuts are bound to, each under the
//! id of its command.

use std::collections::HashMap;
use vstd::prelude::*;

verus! {

broadcast use vstd::std_specs::hash::group_hash_axioms;

/// The id of a command.
#[derive(Clone, Copy, Debug, PartialEq, Eq, Hash, Structural)]
pub struct CommandId {
    id: usize,
}

impl CommandId {
    /// The number of the id.
    pub closed spec fn spec_id(self) -> usize {
        self.id
    }

    /// The id of a number.
    pub fn from_id(id: usize) -> (r: CommandId)
        ensures
            r.spec_id() == id,
    {
        CommandId { id }
    }

    /// The number of the id.
    pub fn id(&self) -> (r: usize)
        ensures
            r == self.spec_id(),
    {
        self.id
    }
}

/// The handlers of the commands, each under the id of its command, and the
/// number of the next id to hand out.
pub struct CommandMap<T> {
    inner: HashMap<usize, T>,
    next_id: usize,
}

impl<T> CommandMap<T> {
    /// The handlers by the number of their id.
    pub closed spec fn spec_handlers(&self) -> Map<usize, T> {
        self.inner@
    }

    /// The number of the next id.
    pub closed spec fn spec_next_id(&self) -> usize {
        self.next_id
    }

    /// A map without handlers, whose first id is 0.
    pub fn new() -> (r: CommandMap<T>)
        ensures
            r.spec_handlers() == Map::<usize, T>::empty(),
            r.spec_next_id() == 0,
    {
        CommandMap { inner: HashMap::new(), next_id: 0 }
    }

    /// Hands out an id that was not handed out before. The ids count up from
    /// 0 and start again at 0 after the largest number.
    pub fn next_id(&mut self) -> (r: CommandId)
        ensures
            r.spec_id() == old(self).spec_next_id(),
            final(self).spec_next_id() == (if old(self).spec_next_id() == usize::MAX {
                0
            } else {
                (old(self).spec_next_id() + 1) as usize
            }),
            final(self).spec_handlers() == old(self).spec_handlers(),
    {
        let id = self.next_id;
        self.next_id = if id == usize::MAX {
            0
        } else {
            id + 1
        };
        CommandId { id }
    }

    /// The handler of a command.
    pub fn get(&self, id: CommandId) -> (r: Option<&T>)
        ensures
            match r {
                Some(handler) => self.spec_handlers().contains_key(id.spec_id())
                    && self.spec_handlers()[id.spec_id()] == *handler,
                None => !self.spec_handlers().contains_key(id.spec_id()),
            },
    {
        self.inner.get(&id.id)
    }

    /// Puts a handler under the id of a command, in place of the handler
    /// that was there.
    pub fn insert(&mut self, id: CommandId, handler: T)
        ensures
            final(self).spec_handlers() == old(self).spec_handlers().insert(id.spec_id(), handler),
            final(self).spec_next_id() == old(self).spec_next_id(),
    {
        self.inner.insert(id.id, handler);
    }

    /// Takes the handler of a command out of the map.
    pub fn remove(&mut self, id: &CommandId) -> (r: Option<T>)
        ensures
            final(self).spec_handlers() == old(self).spec_handlers().remove(id.spec_id()),
            final(self).spec_next_id() == old(self).spec_next_id(),
            match r {
                Some(handler) => old(self).spec_handlers().contains_key(id.spec_id()) && old(
                    self,
                ).spec_handlers()[id.spec_id()] == handler,
                None => !old(self).spec_handlers().contains_key(id.spec_id()),
            },
    {
        self.inner.remove(&id.id)
    }
}

/// A shortcut with the command that it is bound to, as the input stands.
#[derive(Clone, Copy, Debug, PartialEq, Eq, Structural)]
pub struct ShortcutMatch {
    /// The command that the shortcut is bound to.
    pub id: CommandId,
    /// The rank of the shortcut among the shortcuts; the empty shortcut has
    /// rank 0.
    pub rank: u64,
    /// Whether the input matches the shortcut.
    pub matches: bool,
}

/// The commands whose shortcuts are held down.
pub struct ShortcutTrigger {
    triggered: Vec<CommandId>,
}

/// What looking at the shortcuts has come to: the commands whose shortcuts
/// are held down, the highest rank among the shortcuts that were newly
/// pressed, and the command of the shortcut of that rank.
pub struct TriggerState {
    /// The commands whose shortcuts are held down.
    pub triggered: Seq<CommandId>,
    /// The highest rank among the shortcuts that were newly pressed.
    pub longest: u64,
    /// The command of the shortcut of that rank.
    pub shortcut: Option<CommandId>,
}

/// A list of commands without a command.
pub open spec fn spec_without(s: Seq<CommandId>, id: CommandId) -> Seq<CommandId>
    decreases s.len(),
{
    if s.len() == 0 {
        s
    } else if s.last() == id {
        spec_without(s.drop_last(), id)
    } else {
        spec_without(s.drop_last(), id).push(s.last())
    }
}

/// The state after one shortcut has been looked at: a shortcut that matches
/// and was not held down is now held down and, where its rank is the highest
/// so far, its command is the one to fire; a shortcut that does not match is
/// no longer held down.
pub open spec fn spec_trigger_step(st: TriggerState, m: ShortcutMatch) -> TriggerState {
    if m.matches {
        if st.triggered.contains(m.id) {
            st
        } else if m.rank > st.longest {
            TriggerState {
                triggered: st.triggered.push(m.id),
                longest: m.rank,
                shortcut: Some(m.id),
            }
        } else {
            TriggerState { triggered: st.triggered.push(m.id), ..st }
        }
    } else {
        TriggerState { triggered: spec_without(st.triggered, m.id), ..st }
    }
}

/// The state after the first `n` shortcuts have been looked at.
pub open spec fn spec_trigger_all(
    triggered: Seq<CommandId>,
    shortcuts: Seq<ShortcutMatch>,
    n: int,
) -> TriggerState
    decreases n,
{
    if n <= 0 || n > shortcuts.len() {
        TriggerState { triggered, longest: 0, shortcut: None }
    } else {
        spec_trigger_step(spec_trigger_all(triggered, shortcuts, n - 1), shortcuts[n - 1])
    }
}

fn held(triggered: &Vec<CommandId>, id: CommandId) -> (r: bool)
    ensures
        r == triggered@.contains(id),
{
    let mut i: usize = 0;
    while i < triggered.len()
        invariant
            i <= triggered@.len(),
            forall|j: int| 0 <= j < i ==> triggered@[j] != id,
        decreases triggered.len() - i,
    {
        if triggered[i].id == id.id {
            assert(triggered@[i as int] == id);
            return true;
        }
        i = i + 1;
    }
    false
}

fn without(triggered: &Vec<CommandId>, id: CommandId) -> (r: Vec<CommandId>)
    ensures
        r@ == spec_without(triggered@, id),
{
    let mut r: Vec<CommandId> = Vec::new();
    let mut i: usize = 0;
    assert(triggered@.take(0) =~= Seq::<CommandId>::empty());
    while i < triggered.len()
        invariant
            i <= triggered@.len(),
            r@ == spec_without(triggered@.take(i as int), id),
        decreases triggered.len() - i,
    {
        if triggered[i].id != id.id {
            r.push(triggered[i]);
        }
        i = i + 1;
        assert(triggered@.take(i as int).drop_last() =~= triggered@.take(i as int - 1));
    }
    assert(triggered@.take(triggered@.len() as int) =~= triggered@);
    r
}

impl ShortcutTrigger {
    /// The commands whose shortcuts are held down.
    pub closed spec fn spec_triggered(&self) -> Seq<CommandId> {
        self.triggered@
    }

    /// No shortcut is held down.
    pub fn new() -> (r: ShortcutTrigger)
        ensures
            r.spec_triggered() == Seq::<CommandId>::empty(),
    {
        ShortcutTrigger { triggered: Vec::new() }
    }

    /// Looks at the shortcuts as the input stands, and hands back the command
    /// to fire: that of the shortcut of the highest rank among those that
    /// were newly pressed. A shortcut that stays held down fires but once.
    pub fn update(&mut self, shortcuts: &[ShortcutMatch]) -> (r: Option<CommandId>)
        ensures
            final(self).spec_triggered() == spec_trigger_all(
                old(self).spec_triggered(),
                shortcuts@,
                shortcuts@.len() as int,
            ).triggered,
            r == spec_trigger_all(
                old(self).spec_triggered(),
                shortcuts@,
                shortcuts@.len() as int,
            ).shortcut,
    {
        let mut longest: u64 = 0;
        let mut shortcut: Option<CommandId> = None;
        let mut i: usize = 0;
        while i < shortcuts.len()
            invariant
                i <= shortcuts@.len(),
                spec_trigger_all(old(self).triggered@, shortcuts@, i as int) == (TriggerState {
                    triggered: self.triggered@,
                    longest,
                    shortcut,
                }),
            decreases shortcuts.len() - i,
        {
            let m = shortcuts[i];
            if m.matches {
                if !held(&self.triggered, m.id) {
                    self.triggered.push(m.id);
                    if m.rank > longest {
                        longest = m.rank;
                        shortcut = Some(m.id);
                    }
                }
            } else {
                self.triggered = without(&self.triggered, m.id);
            }
            i = i + 1;
        }
        shortcut
    }
}

} // verus!
