//! The typed messages that drive every state change in the runtime: user
//! intents derived from terminal events, orchestration commands, and the
//! follow-up notifications components send one another.

use vstd::prelude::*;

use crate::components::download::{opt_view, VideoV, YoutubeVideo};
use crate::layouts::Focus;

verus! {

/// The closed set of messages everything communicates through.
#[derive(Debug, PartialEq, Eq)]
pub enum Action {
    /// A tick event from the event loop.
    Tick,
    /// Tells the run loop to render.
    Render,
    /// Refresh the UI layout after a terminal resize.
    Resize(u16, u16),
    Suspend,
    Resume,
    /// Cleanly exit the program.
    Quit,
    Refresh,
    Error(String),
    Help,
    /// Switch to the given focus.
    FocusSwitch(Focus),
    FocusBack,
    /// Toggles input mode on: the run loop routes keys to the input bar
    /// until the matching `InputModeOff` arrives.
    InputModeOn(InputIn),
    /// Toggles input mode off, carrying the final buffer contents.
    InputModeOff(InputOut),
    DownloadSearchYoutube,
    DownloadShowSearchDetails(Option<YoutubeVideo>),
    DownloadSearchToDetails,
}

/// Request to open the input bar: a unique name correlating the eventual
/// result with its requester, and optional initial text.
#[derive(Debug, PartialEq, Eq)]
pub struct InputIn {
    pub input_name: String,
    pub initial_value: Option<String>,
}

/// Result of leaving input mode: the name of the request it answers (absent
/// on cancellation) and the buffer contents on exit.
#[derive(Debug, PartialEq, Eq)]
pub struct InputOut {
    pub input_name: Option<String>,
    pub buffer: String,
}

/// Mathematical image of an `InputIn`.
#[verifier::ext_equal]
pub struct InputInV {
    pub input_name: Seq<char>,
    pub initial_value: Option<Seq<char>>,
}

/// Mathematical image of an `InputOut`.
#[verifier::ext_equal]
pub struct InputOutV {
    pub input_name: Option<Seq<char>>,
    pub buffer: Seq<char>,
}

/// Mathematical image of an `Action`.
#[verifier::ext_equal]
pub enum ActionV {
    Tick,
    Render,
    Resize(u16, u16),
    Suspend,
    Resume,
    Quit,
    Refresh,
    Error(Seq<char>),
    Help,
    FocusSwitch(Focus),
    FocusBack,
    InputModeOn(InputInV),
    InputModeOff(InputOutV),
    DownloadSearchYoutube,
    DownloadShowSearchDetails(Option<VideoV>),
    DownloadSearchToDetails,
}

/// The view of an optionally emitted action.
pub open spec fn opt_action_view(r: Option<Action>) -> Option<ActionV> {
    match r {
        Some(a) => Some(a@),
        None => None,
    }
}

impl View for InputIn {
    type V = InputInV;

    open spec fn view(&self) -> InputInV {
        InputInV { input_name: self.input_name@, initial_value: opt_view(self.initial_value) }
    }
}

impl View for InputOut {
    type V = InputOutV;

    open spec fn view(&self) -> InputOutV {
        InputOutV { input_name: opt_view(self.input_name), buffer: self.buffer@ }
    }
}

impl View for Action {
    type V = ActionV;

    open spec fn view(&self) -> ActionV {
        match self {
            Action::Tick => ActionV::Tick,
            Action::Render => ActionV::Render,
            Action::Resize(w, h) => ActionV::Resize(*w, *h),
            Action::Suspend => ActionV::Suspend,
            Action::Resume => ActionV::Resume,
            Action::Quit => ActionV::Quit,
            Action::Refresh => ActionV::Refresh,
            Action::Error(m) => ActionV::Error(m@),
            Action::Help => ActionV::Help,
            Action::FocusSwitch(f) => ActionV::FocusSwitch(*f),
            Action::FocusBack => ActionV::FocusBack,
            Action::InputModeOn(i) => ActionV::InputModeOn(i@),
            Action::InputModeOff(o) => ActionV::InputModeOff(o@),
            Action::DownloadSearchYoutube => ActionV::DownloadSearchYoutube,
            Action::DownloadShowSearchDetails(v) => ActionV::DownloadShowSearchDetails(
                match v {
                    Some(video) => Some(video@),
                    None => None,
                },
            ),
            Action::DownloadSearchToDetails => ActionV::DownloadSearchToDetails,
        }
    }
}

impl Clone for InputIn {
    fn clone(&self) -> (r: Self)
        ensures
            r == *self,
    {
        InputIn {
            input_name: self.input_name.clone(),
            initial_value: self.initial_value.clone(),
        }
    }
}

impl Clone for InputOut {
    fn clone(&self) -> (r: Self)
        ensures
            r == *self,
    {
        InputOut { input_name: self.input_name.clone(), buffer: self.buffer.clone() }
    }
}

impl Clone for Action {
    fn clone(&self) -> (r: Self)
        ensures
            r == *self,
    {
        match self {
            Action::Tick => Action::Tick,
            Action::Render => Action::Render,
            Action::Resize(w, h) => Action::Resize(*w, *h),
            Action::Suspend => Action::Suspend,
            Action::Resume => Action::Resume,
            Action::Quit => Action::Quit,
            Action::Refresh => Action::Refresh,
            Action::Error(m) => Action::Error(m.clone()),
            Action::Help => Action::Help,
            Action::FocusSwitch(f) => Action::FocusSwitch(*f),
            Action::FocusBack => Action::FocusBack,
            Action::InputModeOn(i) => Action::InputModeOn(i.clone()),
            Action::InputModeOff(o) => Action::InputModeOff(o.clone()),
            Action::DownloadSearchYoutube => Action::DownloadSearchYoutube,
            Action::DownloadShowSearchDetails(v) => Action::DownloadShowSearchDetails(v.clone()),
            Action::DownloadSearchToDetails => Action::DownloadSearchToDetails,
        }
    }
}

} // verus!
