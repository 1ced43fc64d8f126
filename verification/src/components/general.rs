//! Components present on every screen: the title bar and the input bar.
//!
//! The input bar owns the text buffer edited while input mode is active. It
//! opens on `InputModeOn`, remembering which request it answers, and emits
//! `InputModeOff` with the buffer on enter, or a cancellation on escape.

use vstd::prelude::*;

use crate::action::{opt_action_view, Action, ActionV, InputInV, InputOut, InputOutV};
use crate::components::download::opt_view;
use crate::keys::{Key, KeyCode, KeyKind, KeyMods};
use crate::layouts::{Focus, Scenes};
use crate::mode::Mode;
use crate::text::string_from_chars;

verus! {

/// The strip at the top of the screen showing the application name.
pub struct TitleBar {}

impl TitleBar {
    pub fn new() -> (t: TitleBar)
        ensures
            t == (TitleBar {  }),
    {
        TitleBar {  }
    }

    pub fn scene(&self) -> (s: Scenes)
        ensures
            s == Scenes::TitleBar,
    {
        Scenes::TitleBar
    }

    pub fn mode(&self) -> (m: Mode)
        ensures
            m == Mode::Global,
    {
        Mode::Global
    }

    /// The text the title bar displays.
    pub fn text(&self) -> (r: &'static str)
        ensures
            r@ == "muzik-tui"@,
    {
        "muzik-tui"
    }
}

/// Mathematical image of the input bar's state.
#[verifier::ext_equal]
pub struct InputAreaV {
    pub input_name: Option<Seq<char>>,
    pub buffer: Seq<char>,
    pub position: int,
}

/// The strip at the bottom of the screen where text is entered while input
/// mode is active.
pub struct InputArea {
    pub input_name: Option<String>,
    pub input_buffer: Vec<char>,
    pub position: usize,
}

impl View for InputArea {
    type V = InputAreaV;

    open spec fn view(&self) -> InputAreaV {
        InputAreaV {
            input_name: opt_view(self.input_name),
            buffer: self.input_buffer@,
            position: self.position as int,
        }
    }
}

impl InputArea {
    /// The cursor never leaves the buffer.
    pub open spec fn wf(self) -> bool {
        self@.position <= self@.buffer.len()
    }

    pub fn new() -> (c: InputArea)
        ensures
            c.wf(),
            c@ == (InputAreaV { input_name: None, buffer: Seq::<char>::empty(), position: 0 }),
    {
        let c = InputArea { input_name: None, input_buffer: Vec::new(), position: 0 };
        proof {
            assert(c@ =~= (InputAreaV {
                input_name: None,
                buffer: Seq::<char>::empty(),
                position: 0,
            }));
        }
        c
    }

    pub fn scene(&self) -> (s: Scenes)
        ensures
            s == Scenes::InputBar,
    {
        Scenes::InputBar
    }

    pub fn mode(&self) -> (m: Mode)
        ensures
            m == Mode::Global,
    {
        Mode::Global
    }

    /// Whether a key event reaches the editing logic at all: the input bar
    /// must hold the focus and the key must be a plain or shifted press.
    pub open spec fn key_relevant(focus: Focus, key: Key) -> bool {
        &&& focus.scene == Scenes::InputBar
        &&& key.kind == KeyKind::Press
        &&& (key.mods == KeyMods::Shift || key.mods == KeyMods::Plain)
    }

    /// The buffer state after one key event.
    pub open spec fn spec_key_state(s: InputAreaV, key: Key, focus: Focus) -> InputAreaV {
        if !Self::key_relevant(focus, key) {
            s
        } else {
            match key.code {
                KeyCode::Char(c) => InputAreaV {
                    buffer: s.buffer.insert(s.position, c),
                    position: s.position + 1,
                    ..s
                },
                KeyCode::Right => if s.position < s.buffer.len() {
                    InputAreaV { position: s.position + 1, ..s }
                } else {
                    s
                },
                KeyCode::Left => if s.position > 0 {
                    InputAreaV { position: s.position - 1, ..s }
                } else {
                    s
                },
                KeyCode::Backspace => if s.position >= 1 {
                    InputAreaV {
                        buffer: s.buffer.remove(s.position - 1),
                        position: s.position - 1,
                        ..s
                    }
                } else {
                    s
                },
                _ => s,
            }
        }
    }

    /// The action one key event emits: enter submits the buffer under the
    /// current request name; escape cancels.
    pub open spec fn spec_key_out(s: InputAreaV, key: Key, focus: Focus) -> Option<ActionV> {
        if !Self::key_relevant(focus, key) {
            None
        } else {
            match key.code {
                KeyCode::Enter => Some(
                    ActionV::InputModeOff(
                        (InputOutV { input_name: s.input_name, buffer: s.buffer }),
                    ),
                ),
                KeyCode::Esc => Some(
                    ActionV::InputModeOff(
                        (InputOutV { input_name: None, buffer: Seq::<char>::empty() }),
                    ),
                ),
                _ => None,
            }
        }
    }

    /// Edit the buffer or submit it, as the key demands.
    pub fn handle_key_events(&mut self, key: Key, focus: Focus) -> (r: Option<Action>)
        requires
            old(self).wf(),
        ensures
            final(self).wf(),
            final(self)@ == Self::spec_key_state(old(self)@, key, focus),
            opt_action_view(r) == Self::spec_key_out(old(self)@, key, focus),
    {
        if focus.scene == self.scene() && matches!(key.kind, KeyKind::Press) && (matches!(
            key.mods,
            KeyMods::Shift,
        ) || matches!(key.mods, KeyMods::Plain)) {
            match key.code {
                KeyCode::Char(c) => {
                    self.input_buffer.insert(self.position, c);
                    let n = self.input_buffer.len();
                    proof {
                        assert(self.position + 1 <= n);
                    }
                    self.position = self.position + 1;
                },
                KeyCode::Enter => {
                    return Some(
                        Action::InputModeOff(
                            InputOut {
                                input_name: self.input_name.clone(),
                                buffer: string_from_chars(&self.input_buffer),
                            },
                        ),
                    );
                },
                KeyCode::Right => {
                    if self.position < self.input_buffer.len() {
                        self.position = self.position + 1;
                    }
                },
                KeyCode::Left => {
                    if self.position > 0 {
                        self.position = self.position - 1;
                    }
                },
                KeyCode::Backspace => {
                    if self.position >= 1 {
                        self.input_buffer.remove(self.position - 1);
                        self.position = self.position - 1;
                    }
                },
                KeyCode::Esc => {
                    return Some(
                        Action::InputModeOff(
                            InputOut { input_name: None, buffer: String::new() },
                        ),
                    );
                },
                _ => {},
            }
        }
        None
    }

    /// The heading the input bar is drawn with: the request name it is
    /// answering, if one is active.
    pub fn title_text(&self) -> (r: String)
        ensures
            match self@.input_name {
                Some(name) => r@ == "Input Bar ("@ + name + ")"@,
                None => r@ == "Input Bar"@,
            },
    {
        match &self.input_name {
            Some(name) => "Input Bar (".to_owned().concat(name.as_str()).concat(")"),
            None => "Input Bar".to_owned(),
        }
    }

    /// The state after reacting to an action: entering input mode installs
    /// the request's name and its initial text (cursor at its end), or
    /// clears the buffer when there is none. Everything else is ignored.
    pub open spec fn spec_update(s: InputAreaV, a: ActionV) -> InputAreaV {
        match a {
            ActionV::InputModeOn(input) => match input.initial_value {
                Some(initial) => InputAreaV {
                    input_name: Some(input.input_name),
                    buffer: initial,
                    position: initial.len() as int,
                },
                None => InputAreaV {
                    input_name: Some(input.input_name),
                    buffer: Seq::<char>::empty(),
                    position: 0,
                },
            },
            _ => s,
        }
    }

    /// React to a forwarded action; emits nothing.
    pub fn update(&mut self, action: &Action) -> (r: Option<Action>)
        requires
            old(self).wf(),
        ensures
            final(self).wf(),
            final(self)@ == Self::spec_update(old(self)@, action@),
            r is None,
    {
        match action {
            Action::InputModeOn(input) => {
                self.input_name = Some(input.input_name.clone());
                match &input.initial_value {
                    Some(initial) => {
                        self.input_buffer = crate::text::chars_of(initial.as_str());
                        self.position = self.input_buffer.len();
                    },
                    None => {
                        self.input_buffer = Vec::new();
                        self.position = 0;
                    },
                }
            },
            _ => {},
        }
        None
    }
}

/// Entering input mode with an initial value and submitting it untouched
/// hands the value back: after `InputModeOn` carrying `{name, Some(v)}`, the
/// buffer equals `v`, and a plain enter press emits `InputModeOff` carrying
/// `{Some(name), v}`.
pub proof fn lemma_input_round_trip(s: InputAreaV, name: Seq<char>, v: Seq<char>, focus: Focus)
    requires
        focus.scene == Scenes::InputBar,
    ensures
        ({
            let s1 = InputArea::spec_update(
                s,
                ActionV::InputModeOn((InputInV { input_name: name, initial_value: Some(v) })),
            );
            &&& s1.buffer == v
            &&& InputArea::spec_key_out(
                s1,
                (Key { code: KeyCode::Enter, mods: KeyMods::Plain, kind: KeyKind::Press }),
                focus,
            ) == Some(ActionV::InputModeOff((InputOutV { input_name: Some(name), buffer: v })))
        }),
{
}

} // verus!
