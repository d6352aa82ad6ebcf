use vstd::prelude::*;

use crate::action::{same_choice, Action};
use crate::mode::Mode;

verus! {

/// The key that was pressed, without its modifiers.
#[derive(Debug, Clone, Copy, PartialEq, Eq, Structural, Hash)]
pub enum KeyCode {
    Char(char),
    F(u8),
    Enter,
    Esc,
    Backspace,
    Tab,
    BackTab,
    Up,
    Down,
    Left,
    Right,
    Home,
    End,
    PageUp,
    PageDown,
    Delete,
    Insert,
    Other,
}

/// Modifier bit for the shift key.
pub const SHIFT: u8 = 1;

/// Modifier bit for the control key.
pub const CONTROL: u8 = 2;

/// Modifier bit for the alt key.
pub const ALT: u8 = 4;

/// One key press: a code and the set of modifiers held, as a bit set.
#[derive(Debug, Clone, Copy, PartialEq, Eq, Structural, Hash)]
pub struct Key {
    pub code: KeyCode,
    pub modifiers: u8,
}

impl Key {
    /// A press of `code` with no modifier held.
    pub fn plain(code: KeyCode) -> (r: Key)
        ensures
            r.code == code,
            r.modifiers == 0,
    {
        Key { code, modifiers: 0 }
    }
}

/// One entry of the key-binding table: in `mode`, the key sequence `keys`
/// fires `action`.
#[derive(Debug, Clone)]
pub struct Binding {
    pub mode: Mode,
    pub keys: Vec<Key>,
    pub action: Action,
}

/// The action of the first entry at or after `i` that binds `keys` in `mode`.
pub open spec fn bound_from(table: Seq<Binding>, mode: Mode, keys: Seq<Key>, i: int) -> Option<Action>
    decreases table.len() - i,
{
    if i < 0 || i >= table.len() {
        None
    } else if table[i].mode == mode && table[i].keys@ == keys {
        Some(table[i].action)
    } else {
        bound_from(table, mode, keys, i + 1)
    }
}

/// The action that `keys` is bound to in `mode`, if any. The table is read
/// in order and the first entry for a mode and key sequence wins: a later
/// entry for the same pair is never used.
pub open spec fn bound(table: Seq<Binding>, mode: Mode, keys: Seq<Key>) -> Option<Action> {
    bound_from(table, mode, keys, 0)
}

/// What one key press resolves to, and the key buffer afterwards: a key bound
/// on its own fires at once and leaves the buffer alone; otherwise it joins
/// the buffer, and the whole buffer is looked up as a chord.
pub open spec fn resolve(table: Seq<Binding>, mode: Mode, buffer: Seq<Key>, key: Key) -> (Option<Action>, Seq<Key>) {
    match bound(table, mode, seq![key]) {
        Some(a) => (Some(a), buffer),
        None => (bound(table, mode, buffer.push(key)), buffer.push(key)),
    }
}

/// Whether two key sequences are equal.
fn same_keys(a: &Vec<Key>, b: &Vec<Key>) -> (r: bool)
    ensures
        r == (a@ == b@),
{
    if a.len() != b.len() {
        return false;
    }
    let mut i: usize = 0;
    while i < a.len()
        invariant
            a@.len() == b@.len(),
            i <= a.len(),
            forall|j: int| 0 <= j < i ==> a@[j] == b@[j],
        decreases a.len() - i,
    {
        if a[i] != b[i] {
            return false;
        }
        i = i + 1;
    }
    assert(a@ =~= b@);
    true
}

/// Looks `keys` up in `table` for `mode`.
pub fn lookup(table: &Vec<Binding>, mode: Mode, keys: &Vec<Key>) -> (r: Option<Action>)
    ensures
        same_choice(r, bound(table@, mode, keys@)),
{
    let mut i: usize = 0;
    while i < table.len()
        invariant
            i <= table.len(),
            bound(table@, mode, keys@) == bound_from(table@, mode, keys@, i as int),
        decreases table.len() - i,
    {
        if table[i].mode == mode && same_keys(&table[i].keys, keys) {
            return Some(table[i].action.duplicate());
        }
        i = i + 1;
    }
    None
}

/// Resolves key presses against a mode-scoped binding table, remembering the
/// presses since the last tick so that chords of several keys can match.
/// Where the table binds a mode and key sequence more than once, the first
/// entry wins (see `bound`).
pub struct KeyResolver {
    pub bindings: Vec<Binding>,
    pub buffer: Vec<Key>,
}

impl KeyResolver {
    /// A resolver over `bindings` with an empty key buffer.
    pub fn new(bindings: Vec<Binding>) -> (r: KeyResolver)
        ensures
            r.bindings == bindings,
            r.buffer@ == Seq::<Key>::empty(),
    {
        KeyResolver { bindings, buffer: Vec::new() }
    }

    /// Resolves one key press in `mode`.
    pub fn handle_key(&mut self, mode: Mode, key: Key) -> (r: Option<Action>)
        ensures
            final(self).bindings == old(self).bindings,
            same_choice(r, resolve(old(self).bindings@, mode, old(self).buffer@, key).0),
            final(self).buffer@ == resolve(old(self).bindings@, mode, old(self).buffer@, key).1,
    {
        let single = vec![key];
        assert(single@ == seq![key]);
        let found = lookup(&self.bindings, mode, &single);
        match found {
            Some(a) => Some(a),
            None => {
                self.buffer.push(key);
                lookup(&self.bindings, mode, &self.buffer)
            },
        }
    }

    /// Forgets every key pressed since the last tick.
    pub fn tick(&mut self)
        ensures
            final(self).bindings == old(self).bindings,
            final(self).buffer@ == Seq::<Key>::empty(),
    {
        self.buffer.clear();
    }
}

/// A chord of two keys, neither of which is bound alone, fires nothing on its
/// first key and the chord's action on its second, starting from an empty
/// buffer.
pub proof fn two_key_chord(table: Seq<Binding>, mode: Mode, k1: Key, k2: Key)
    requires
        bound(table, mode, seq![k1]) is None,
        bound(table, mode, seq![k2]) is None,
    ensures
        resolve(table, mode, Seq::empty(), k1) == (None::<Action>, seq![k1]),
        resolve(table, mode, seq![k1], k2) == (bound(table, mode, seq![k1, k2]), seq![k1, k2]),
{
    assert(Seq::<Key>::empty().push(k1) =~= seq![k1]);
    assert(seq![k1].push(k2) =~= seq![k1, k2]);
}

/// A key that is bound on its own fires its action and leaves the buffer as
/// it was, whatever the buffer holds.
pub proof fn single_key_wins(table: Seq<Binding>, mode: Mode, buffer: Seq<Key>, key: Key)
    requires
        bound(table, mode, seq![key]) is Some,
    ensures
        resolve(table, mode, buffer, key) == (bound(table, mode, seq![key]), buffer),
{
}

} // verus!
