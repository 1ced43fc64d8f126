//! Top-level application areas. `Global` marks components that are active
//! regardless of which area currently has the focus.

use vstd::prelude::*;

verus! {

#[derive(Clone, Copy, Debug, PartialEq, Eq, Structural)]
pub enum Mode {
    Home,
    Download,
    Manager,
    Global,
}

} // verus!
