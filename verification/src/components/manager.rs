//! The management area: the song list. Its interactive behaviour is not
//! built out yet; it only reports its scene and mode and chooses which of
//! the stores to display.

use vstd::prelude::*;

use crate::action::Action;
use crate::layouts::{ManagerLayouts, Scenes};
use crate::mode::Mode;

verus! {

/// Which of the song stores the list displays.
#[derive(Clone, Copy, Debug, PartialEq, Eq, Structural)]
pub enum DisplayMode {
    Local,
    Database,
    All,
}

/// The list of stored songs.
pub struct SongList {
    pub display_mode: DisplayMode,
}

impl SongList {
    pub fn new() -> (c: SongList)
        ensures
            c == (SongList { display_mode: DisplayMode::Local }),
    {
        SongList { display_mode: DisplayMode::Local }
    }

    pub fn scene(&self) -> (s: Scenes)
        ensures
            s == Scenes::Manager(ManagerLayouts::SongList),
    {
        Scenes::Manager(ManagerLayouts::SongList)
    }

    pub fn mode(&self) -> (m: Mode)
        ensures
            m == Mode::Manager,
    {
        Mode::Manager
    }

    /// React to a forwarded action: the song list ignores everything.
    pub fn update(&mut self, action: &Action) -> (r: Option<Action>)
        ensures
            *final(self) == *old(self),
            r is None,
    {
        let _ = action;
        None
    }
}

} // verus!
