//! The key-binding table: a mapping from a mode and an ordered sequence of
//! key presses to the action it triggers. Lookup is by exact sequence match
//! and the first matching entry wins; nothing validates conflicts.

use vstd::prelude::*;

use crate::action::{opt_action_view, Action, ActionV};
use crate::keys::{key_seq_eq, Key};
use crate::mode::Mode;

verus! {

/// One binding: in this mode, this exact key sequence triggers this action.
pub struct Binding {
    pub mode: Mode,
    pub keys: Vec<Key>,
    pub action: Action,
}

/// Mathematical image of a `Binding`.
#[verifier::ext_equal]
pub struct BindingV {
    pub mode: Mode,
    pub keys: Seq<Key>,
    pub action: ActionV,
}

impl View for Binding {
    type V = BindingV;

    open spec fn view(&self) -> BindingV {
        BindingV { mode: self.mode, keys: self.keys@, action: self.action@ }
    }
}

/// The table of bindings, in registration order.
pub struct KeyBindings {
    pub entries: Vec<Binding>,
}

impl View for KeyBindings {
    type V = Seq<BindingV>;

    open spec fn view(&self) -> Seq<BindingV> {
        self.entries@.map_values(|b: Binding| b@)
    }
}

/// The action of the first entry matching this mode and exact key sequence.
pub open spec fn spec_lookup(bs: Seq<BindingV>, mode: Mode, keys: Seq<Key>) -> Option<ActionV>
    decreases bs.len(),
{
    if bs.len() == 0 {
        None
    } else if bs[0].mode == mode && bs[0].keys == keys {
        Some(bs[0].action)
    } else {
        spec_lookup(bs.drop_first(), mode, keys)
    }
}

impl KeyBindings {
    /// An empty table.
    pub fn new() -> (b: KeyBindings)
        ensures
            b@ == Seq::<BindingV>::empty(),
    {
        let b = KeyBindings { entries: Vec::new() };
        proof {
            assert(b@ =~= Seq::<BindingV>::empty());
        }
        b
    }

    /// Register one binding after the existing ones.
    pub fn bind(&mut self, mode: Mode, keys: Vec<Key>, action: Action)
        ensures
            final(self)@ == old(self)@.push(
                (BindingV { mode, keys: keys@, action: action@ }),
            ),
    {
        self.entries.push(Binding { mode, keys, action });
        proof {
            assert(final(self)@ =~= old(self)@.push(
                (BindingV { mode, keys: keys@, action: action@ }),
            ));
        }
    }

    /// Find the action bound to this exact key sequence in this mode, if
    /// any; the first matching entry wins.
    pub fn lookup(&self, mode: Mode, keys: &Vec<Key>) -> (r: Option<Action>)
        ensures
            opt_action_view(r) == spec_lookup(self@, mode, keys@),
    {
        let n = self.entries.len();
        let mut i: usize = 0;
        proof {
            assert(self@.skip(0) =~= self@);
        }
        while i < n
            invariant
                i <= n,
                n == self.entries@.len(),
                spec_lookup(self@, mode, keys@) == spec_lookup(self@.skip(i as int), mode, keys@),
            decreases n - i,
        {
            proof {
                assert(self@.len() == self.entries@.len());
                assert(self@.skip(i as int)[0] == self@[i as int]);
                assert(self@.skip(i as int).drop_first() =~= self@.skip(i as int + 1));
            }
            let b = &self.entries[i];
            if b.mode == mode && key_seq_eq(&b.keys, keys) {
                return Some(b.action.clone());
            }
            i = i + 1;
        }
        proof {
            assert(self@.skip(n as int) =~= Seq::<BindingV>::empty());
        }
        None
    }
}

} // verus!
