//! The keybind table: key combinations handled locally instead of being
//! forwarded to the host window.
use vstd::prelude::*;

verus! {

/// A key together with the modifiers held when it went down.
#[derive(Clone, Copy, Debug, PartialEq, Eq, Structural)]
pub struct KeyCombo {
    /// Virtual-key code.
    pub key: u32,
    pub ctrl: bool,
    pub alt: bool,
    pub shift: bool,
}

/// What a bound combination does.
#[derive(Clone, Copy, Debug, PartialEq, Eq, Structural)]
pub enum Action {
    ToggleMainWindow,
    DumpDebugData,
    RestartCompanion,
    ToggleRendering,
    ToggleProcessing,
    ToggleDebugOverlay,
}

/// The action bound to `k` in `entries`; a later entry overrides an earlier one.
pub open spec fn binding_in(entries: Seq<(KeyCombo, Action)>, k: KeyCombo) -> Option<Action>
    decreases entries.len(),
{
    if entries.len() == 0 {
        None
    } else if entries.last().0 == k {
        Some(entries.last().1)
    } else {
        binding_in(entries.drop_last(), k)
    }
}

/// Mapping from key combinations to actions, read-only once set up.
pub struct KeybindTable {
    entries: Vec<(KeyCombo, Action)>,
}

impl View for KeybindTable {
    type V = Seq<(KeyCombo, Action)>;

    closed spec fn view(&self) -> Seq<(KeyCombo, Action)> {
        self.entries@
    }
}

impl KeybindTable {
    /// The action bound to `k`, if any.
    pub open spec fn binding(&self, k: KeyCombo) -> Option<Action> {
        binding_in(self@, k)
    }

    /// A table with nothing bound.
    pub fn new() -> (r: KeybindTable)
        ensures
            forall|k: KeyCombo| #[trigger] r.binding(k) is None,
    {
        KeybindTable { entries: Vec::new() }
    }

    /// Binds `combo` to `action`, replacing any earlier binding of `combo`.
    pub fn bind(&mut self, combo: KeyCombo, action: Action)
        ensures
            final(self).binding(combo) == Some(action),
            forall|k: KeyCombo| k != combo ==> #[trigger] final(self).binding(k) == old(self).binding(k),
    {
        self.entries.push((combo, action));
        proof {
            assert(self@.drop_last() =~= old(self)@);
        }
    }

    /// The action bound to `combo`, if any.
    pub fn lookup(&self, combo: KeyCombo) -> (r: Option<Action>)
        ensures
            r == self.binding(combo),
    {
        let mut i: usize = self.entries.len();
        assert(self@.subrange(0, i as int) =~= self@);
        while i > 0
            invariant
                i <= self.entries@.len(),
                binding_in(self@, combo) == binding_in(self@.subrange(0, i as int), combo),
            decreases i,
        {
            let entry = self.entries[i - 1];
            assert(self@.subrange(0, i as int).drop_last() =~= self@.subrange(0, i - 1));
            if entry.0 == combo {
                return Some(entry.1);
            }
            i = i - 1;
        }
        assert(self@.subrange(0, 0).len() == 0);
        None
    }
}

} // verus!
