//! The intro screen of the home area: a static welcome text whose only
//! reaction is to hand the focus to the download area on enter.

use vstd::prelude::*;

use crate::action::{opt_action_view, Action, ActionV};
use crate::keys::{Key, KeyCode};
use crate::layouts::{DownloadLayouts, Focus, HomeLayouts, Scenes};
use crate::mode::Mode;

verus! {

/// The welcome screen.
pub struct Intro {}

impl Intro {
    pub fn new() -> (c: Intro)
        ensures
            c == (Intro {  }),
    {
        Intro {  }
    }

    pub fn scene(&self) -> (s: Scenes)
        ensures
            s == Scenes::Home(HomeLayouts::Intro),
    {
        Scenes::Home(HomeLayouts::Intro)
    }

    pub fn mode(&self) -> (m: Mode)
        ensures
            m == Mode::Home,
    {
        Mode::Home
    }

    /// The action one key event emits: enter, while the intro screen holds
    /// the focus, switches to the download area's result list — the first
    /// interactable scene there.
    pub open spec fn spec_key_out(key: Key, focus: Focus) -> Option<ActionV> {
        if focus.mode == Mode::Home && focus.scene == Scenes::Home(HomeLayouts::Intro)
            && key.code == KeyCode::Enter {
            Some(
                ActionV::FocusSwitch(
                    (Focus {
                        mode: Mode::Download,
                        scene: Scenes::Download(DownloadLayouts::SearchResult),
                    }),
                ),
            )
        } else {
            None
        }
    }

    pub fn handle_key_events(&mut self, key: Key, focus: Focus) -> (r: Option<Action>)
        ensures
            *final(self) == *old(self),
            opt_action_view(r) == Self::spec_key_out(key, focus),
    {
        if focus.mode == Mode::Home && matches!(focus.scene, Scenes::Home(HomeLayouts::Intro))
            && matches!(key.code, KeyCode::Enter) {
            return Some(
                Action::FocusSwitch(
                    Focus {
                        mode: Mode::Download,
                        scene: Scenes::Download(DownloadLayouts::SearchResult),
                    },
                ),
            );
        }
        None
    }

    /// React to a forwarded action: the intro screen ignores everything.
    pub fn update(&mut self, action: &Action) -> (r: Option<Action>)
        ensures
            *final(self) == *old(self),
            r is None,
    {
        let _ = action;
        None
    }

    /// The text the intro screen displays.
    pub fn text(&self) -> (r: &'static str)
        ensures
            r@ == "Welcome to muzik-tui!\nPress <Enter> to start download.\nPress <l> to go to the management list.\nPress <q> to exit at anytime"@,
    {
        "Welcome to muzik-tui!\nPress <Enter> to start download.\nPress <l> to go to the management list.\nPress <q> to exit at anytime"
    }
}

} // verus!
