//! The orchestrator: owns the component registry, the focus stack, the
//! layout manager, the key-binding table and the action queue, and runs the
//! dispatch cycle. One iteration turns an external event into actions
//! (routing keys through the binding table and the components), then drains
//! the queue: for each action, in strict enqueue order, the orchestrator
//! reacts first and the same action is then forwarded to every component in
//! registration order.
//!
//! The loop around it — waiting for events, drawing, suspending — lives
//! outside; it reads the flags this type maintains and performs the
//! externally visible work the dispatch decided on.

use vstd::prelude::*;

use crate::action::{Action, ActionV};
use crate::components::download::{
    DetailsV, SearchBar, SearchBarV, SearchOutcome, SearchResult, SearchResultDetails,
    SearchResultV,
};
use crate::components::general::{InputArea, InputAreaV, TitleBar};
use crate::components::home::Intro;
use crate::components::manager::{DisplayMode, SongList};
use crate::focus::FocusStack;
use crate::keybinds::{spec_lookup, BindingV, KeyBindings};
use crate::keys::{Event, Key};
use crate::layouts::{
    DownloadLayouts, Focus, HomeLayouts, LayoutManager, ManagerLayouts, Rect, Scenes,
};
use crate::mode::Mode;

verus! {

/// The component registry, in registration order: intro screen, title bar,
/// input bar, search bar, result list, details panel, song list.
pub struct Components {
    pub intro: Intro,
    pub title_bar: TitleBar,
    pub input_area: InputArea,
    pub search_bar: SearchBar,
    pub search_result: SearchResult,
    pub search_result_details: SearchResultDetails,
    pub song_list: SongList,
}

/// Mathematical image of the registry: the states of the stateful
/// components.
#[verifier::ext_equal]
pub struct ComponentsV {
    pub input: InputAreaV,
    pub search_bar: SearchBarV,
    pub results: SearchResultV,
    pub details: DetailsV,
    pub song_list: DisplayMode,
}

impl View for Components {
    type V = ComponentsV;

    open spec fn view(&self) -> ComponentsV {
        ComponentsV {
            input: self.input_area@,
            search_bar: self.search_bar@,
            results: self.search_result@,
            details: self.search_result_details@,
            song_list: self.song_list.display_mode,
        }
    }
}

/// Mathematical image of the orchestrator.
#[verifier::ext_equal]
pub struct AppV {
    pub components: ComponentsV,
    pub focus: Seq<Focus>,
    pub layout: LayoutManager,
    pub bindings: Seq<BindingV>,
    pub queue: Seq<ActionV>,
    pub key_buffer: Seq<Key>,
    pub should_quit: bool,
    pub should_suspend: bool,
    pub pending_render: bool,
    pub last_error: Option<Seq<char>>,
}

/// The orchestrator.
pub struct App {
    pub components: Components,
    pub focus_stack: FocusStack,
    pub layout_manager: LayoutManager,
    pub bindings: KeyBindings,
    pub queue: Vec<Action>,
    pub last_tick_key_events: Vec<Key>,
    pub should_quit: bool,
    pub should_suspend: bool,
    pub pending_render: bool,
    pub last_error: Option<String>,
}

impl View for App {
    type V = AppV;

    open spec fn view(&self) -> AppV {
        AppV {
            components: self.components@,
            focus: self.focus_stack@,
            layout: self.layout_manager,
            bindings: self.bindings@,
            queue: self.queue@.map_values(|a: Action| a@),
            key_buffer: self.last_tick_key_events@,
            should_quit: self.should_quit,
            should_suspend: self.should_suspend,
            pending_render: self.pending_render,
            last_error: crate::components::download::opt_view(self.last_error),
        }
    }
}

/// A singleton or empty sequence from an optionally emitted action.
pub open spec fn opt_to_seq(o: Option<ActionV>) -> Seq<ActionV> {
    match o {
        Some(a) => seq![a],
        None => Seq::empty(),
    }
}

/// Every component's state after one action is forwarded to all of them.
pub open spec fn components_updated(c: ComponentsV, a: ActionV) -> ComponentsV {
    ComponentsV {
        input: InputArea::spec_update(c.input, a),
        search_bar: SearchBar::spec_update(c.search_bar, a),
        results: SearchResult::spec_update(c.results, a),
        details: SearchResultDetails::spec_update(c.details, a),
        ..c
    }
}

/// The orchestrator's own reaction to one action: focus switches push, back
/// steps pop (never below the seeded bottom element: emptying the stack is
/// a broken invariant, so it surfaces as a fatal stop instead), the flags
/// are set, a resize rebuilds the layout, an error is recorded.
pub open spec fn spec_self_handled(s: AppV, a: ActionV) -> AppV {
    match a {
        ActionV::Tick => AppV { key_buffer: Seq::empty(), ..s },
        ActionV::Quit => AppV { should_quit: true, ..s },
        ActionV::Suspend => AppV { should_suspend: true, ..s },
        ActionV::Resume => AppV { should_suspend: false, ..s },
        ActionV::Resize(w, h) => AppV {
            layout: LayoutManager::built((Rect { x: 0u16, y: 0u16, width: w, height: h })),
            pending_render: true,
            ..s
        },
        ActionV::Render => AppV { pending_render: true, ..s },
        ActionV::InputModeOn(_) => AppV {
            focus: s.focus.push(
                (Focus { mode: s.focus.last().mode, scene: Scenes::InputBar }),
            ),
            ..s
        },
        ActionV::InputModeOff(_) => spec_focus_popped(s),
        ActionV::FocusSwitch(f) => AppV { focus: s.focus.push(f), ..s },
        ActionV::FocusBack => spec_focus_popped(s),
        ActionV::Error(m) => AppV { last_error: Some(m), ..s },
        _ => s,
    }
}

/// Popping the focus stack, guarded: with only the bottom element left the
/// pop would break the never-empty invariant, so the run is stopped with
/// the violation recorded instead.
pub open spec fn spec_focus_popped(s: AppV) -> AppV {
    if s.focus.len() > 1 {
        AppV { focus: s.focus.drop_last(), ..s }
    } else {
        AppV { should_quit: true, last_error: Some("focus stack underflow"@), ..s }
    }
}

/// One action dispatched: the orchestrator reacts, then every component
/// sees the same action. The queue is not touched — the caller removes the
/// action from it.
pub open spec fn spec_step(s: AppV, a: ActionV) -> AppV {
    let s1 = spec_self_handled(s, a);
    AppV { components: components_updated(s1.components, a), ..s1 }
}

/// A sequence of actions dispatched in order.
pub open spec fn spec_run_queue(s: AppV, pending: Seq<ActionV>) -> AppV
    decreases pending.len(),
{
    if pending.len() == 0 {
        s
    } else {
        spec_run_queue(spec_step(s, pending[0]), pending.drop_first())
    }
}

/// Dispatching ignores the queue field: stepping a state with any queue
/// contents changes the other fields the same way.
pub proof fn lemma_step_queue(s: AppV, q: Seq<ActionV>, a: ActionV)
    ensures
        spec_step((AppV { queue: q, ..s }), a) == (AppV { queue: q, ..spec_step(s, a) }),
{
}

/// No dispatched action empties the focus stack or removes its bottom
/// element: the focus installed at startup survives every action.
pub proof fn lemma_step_keeps_bottom_focus(s: AppV, a: ActionV)
    requires
        s.focus.len() >= 1,
    ensures
        spec_step(s, a).focus.len() >= 1,
        spec_step(s, a).focus[0] == s.focus[0],
{
}

/// Draining any queue of actions keeps the focus stack non-empty and its
/// bottom element in place.
pub proof fn lemma_run_queue_keeps_bottom_focus(s: AppV, pending: Seq<ActionV>)
    requires
        s.focus.len() >= 1,
    ensures
        spec_run_queue(s, pending).focus.len() >= 1,
        spec_run_queue(s, pending).focus[0] == s.focus[0],
    decreases pending.len(),
{
    if pending.len() == 0 {
    } else {
        lemma_step_keeps_bottom_focus(s, pending[0]);
        lemma_run_queue_keeps_bottom_focus(spec_step(s, pending[0]), pending.drop_first());
    }
}

/// Dispatching one more action continues where the previous ones left off.
pub proof fn lemma_run_queue_snoc(s: AppV, ps: Seq<ActionV>, a: ActionV)
    ensures
        spec_run_queue(s, ps.push(a)) == spec_step(spec_run_queue(s, ps), a),
    decreases ps.len(),
{
    if ps.len() == 0 {
        let one = ps.push(a);
        assert(one[0] == a);
        assert(one.drop_first() =~= Seq::<ActionV>::empty());
        assert(spec_run_queue(s, one) == spec_run_queue(spec_step(s, a), one.drop_first()));
        assert(spec_run_queue(spec_step(s, a), one.drop_first()) == spec_step(s, a));
        assert(spec_run_queue(s, ps) == s);
    } else {
        assert(ps.push(a)[0] == ps[0]);
        assert(ps.push(a).drop_first() =~= ps.drop_first().push(a));
        lemma_run_queue_snoc(spec_step(s, ps[0]), ps.drop_first(), a);
    }
}

/// The binding actions one key press triggers, outside input mode: a global
/// single-key match wins outright; otherwise a mode single-key match; an
/// unmatched key joins the rolling buffer, which is then tried as a
/// multi-key sequence.
pub open spec fn spec_bind_actions(s: AppV, key: Key, focus: Focus) -> Seq<ActionV> {
    match spec_lookup(s.bindings, Mode::Global, seq![key]) {
        Some(a) => seq![a],
        None => match spec_lookup(s.bindings, focus.mode, seq![key]) {
            Some(a) => seq![a],
            None => opt_to_seq(spec_lookup(s.bindings, focus.mode, s.key_buffer.push(key))),
        },
    }
}

/// The rolling key buffer after one key press: a key neither a global nor a
/// mode single-key binding matched is appended; the buffer is otherwise
/// untouched (and cleared on every tick by the dispatch).
pub open spec fn spec_buffer_after(s: AppV, key: Key, focus: Focus) -> Seq<Key> {
    if spec_lookup(s.bindings, Mode::Global, seq![key]) is Some || spec_lookup(
        s.bindings,
        focus.mode,
        seq![key],
    ) is Some {
        s.key_buffer
    } else {
        s.key_buffer.push(key)
    }
}

/// The whole effect of one key event. While the input bar holds the focus,
/// no binding fires and the key reaches only the global components and the
/// input bar itself — of those, only the input bar reacts to keys.
/// Otherwise the binding actions are enqueued first, then whatever each
/// component's key handler emits, in registration order.
pub open spec fn spec_key_event(s: AppV, key: Key) -> AppV {
    let focus = s.focus.last();
    if focus.scene == Scenes::InputBar {
        AppV {
            queue: s.queue + opt_to_seq(
                InputArea::spec_key_out(s.components.input, key, focus),
            ),
            components: ComponentsV {
                input: InputArea::spec_key_state(s.components.input, key, focus),
                ..s.components
            },
            ..s
        }
    } else {
        AppV {
            queue: s.queue + spec_bind_actions(s, key, focus) + opt_to_seq(
                Intro::spec_key_out(key, focus),
            ) + opt_to_seq(InputArea::spec_key_out(s.components.input, key, focus)) + opt_to_seq(
                SearchBar::spec_key_out(key, focus),
            ) + opt_to_seq(SearchResult::spec_key_out(s.components.results, key, focus)),
            key_buffer: spec_buffer_after(s, key, focus),
            components: ComponentsV {
                input: InputArea::spec_key_state(s.components.input, key, focus),
                results: SearchResult::spec_key_state(s.components.results, key, focus),
                ..s.components
            },
            ..s
        }
    }
}

/// One entry of a render pass: a scene and the rectangle it draws into.
#[derive(Clone, Copy, Debug, PartialEq, Eq, Structural)]
pub struct RenderEntry {
    pub scene: Scenes,
    pub area: Rect,
}

/// The top-level area a scene belongs to; the title and input bars are
/// global.
pub open spec fn scene_mode(sc: Scenes) -> Mode {
    match sc {
        Scenes::Home(_) => Mode::Home,
        Scenes::Download(_) => Mode::Download,
        Scenes::Manager(_) => Mode::Manager,
        Scenes::InputBar => Mode::Global,
        Scenes::TitleBar => Mode::Global,
    }
}

/// The name a scene is reported under when its layout is missing.
pub open spec fn scene_name(sc: Scenes) -> Seq<char> {
    match sc {
        Scenes::Home(HomeLayouts::Intro) => "Intro"@,
        Scenes::Download(DownloadLayouts::SearchBar) => "SearchBar"@,
        Scenes::Download(DownloadLayouts::SearchResult) => "SearchResult"@,
        Scenes::Download(DownloadLayouts::SearchResultDetails) => "SearchResultDetails"@,
        Scenes::Manager(ManagerLayouts::SongList) => "SongList"@,
        Scenes::InputBar => "InputBar"@,
        Scenes::TitleBar => "TitleBar"@,
    }
}

/// A component is drawn only while its area is active or global.
pub open spec fn spec_scene_visible(s: AppV, sc: Scenes) -> bool {
    scene_mode(sc) == s.focus.last().mode || scene_mode(sc) == Mode::Global
}

/// What one scene contributes to the render pass: its rectangle when the
/// layout resolves, nothing otherwise or while invisible.
pub open spec fn spec_scene_plan(s: AppV, sc: Scenes) -> Seq<RenderEntry> {
    if spec_scene_visible(s, sc) {
        match s.layout.spec_layout(sc) {
            Some(r) => seq![(RenderEntry { scene: sc, area: r })],
            None => Seq::empty(),
        }
    } else {
        Seq::empty()
    }
}

/// The error a visible scene without a layout surfaces instead of drawing.
pub open spec fn spec_scene_errors(s: AppV, sc: Scenes) -> Seq<ActionV> {
    if spec_scene_visible(s, sc) && s.layout.spec_layout(sc) is None {
        seq![ActionV::Error("Failed to get layout: "@ + scene_name(sc))]
    } else {
        Seq::empty()
    }
}

/// The scenes of the registered components, in registration order.
pub open spec fn render_order() -> Seq<Scenes> {
    seq![
        Scenes::Home(HomeLayouts::Intro),
        Scenes::TitleBar,
        Scenes::InputBar,
        Scenes::Download(DownloadLayouts::SearchBar),
        Scenes::Download(DownloadLayouts::SearchResult),
        Scenes::Download(DownloadLayouts::SearchResultDetails),
        Scenes::Manager(ManagerLayouts::SongList),
    ]
}

/// The whole render pass: every visible scene with a layout, in
/// registration order.
pub open spec fn spec_render_plan(s: AppV) -> Seq<RenderEntry> {
    spec_scene_plan(s, render_order()[0]) + spec_scene_plan(s, render_order()[1])
        + spec_scene_plan(s, render_order()[2]) + spec_scene_plan(s, render_order()[3])
        + spec_scene_plan(s, render_order()[4]) + spec_scene_plan(s, render_order()[5])
        + spec_scene_plan(s, render_order()[6])
}

/// The errors the render pass surfaces, in the same order.
pub open spec fn spec_render_errors(s: AppV) -> Seq<ActionV> {
    spec_scene_errors(s, render_order()[0]) + spec_scene_errors(s, render_order()[1])
        + spec_scene_errors(s, render_order()[2]) + spec_scene_errors(s, render_order()[3])
        + spec_scene_errors(s, render_order()[4]) + spec_scene_errors(s, render_order()[5])
        + spec_scene_errors(s, render_order()[6])
}

/// The whole effect of one external event on the orchestrator state.
pub open spec fn spec_handle_event(s: AppV, e: Event) -> AppV {
    match e {
        Event::Quit => AppV { queue: s.queue.push(ActionV::Quit), ..s },
        Event::Tick => AppV { queue: s.queue.push(ActionV::Tick), ..s },
        Event::Render => AppV { queue: s.queue.push(ActionV::Render), ..s },
        Event::Resize(w, h) => AppV { queue: s.queue.push(ActionV::Resize(w, h)), ..s },
        Event::Key(k) => spec_key_event(s, k),
        Event::Mouse => s,
        Event::Other => s,
    }
}

impl App {
    /// The focus stack is never empty and the input bar's cursor stays in
    /// its buffer.
    pub open spec fn wf(self) -> bool {
        &&& self@.focus.len() >= 1
        &&& self.components.input_area.wf()
    }

    /// The orchestrator state at startup: the focus stack seeded with the
    /// intro screen, fresh components, no layouts yet, an empty queue.
    pub open spec fn initial(bindings: Seq<BindingV>) -> AppV {
        AppV {
            components: ComponentsV {
                input: InputAreaV {
                    input_name: None,
                    buffer: Seq::<char>::empty(),
                    position: 0,
                },
                search_bar: SearchBarV { query: Seq::<char>::empty() },
                results: SearchResultV {
                    query: Seq::<char>::empty(),
                    pending: false,
                    generation: 0,
                    videos: None,
                    selected: None,
                },
                details: DetailsV { selected: None },
                song_list: DisplayMode::Local,
            },
            focus: seq![(Focus { mode: Mode::Home, scene: Scenes::Home(HomeLayouts::Intro) })],
            layout: LayoutManager {
                screen: Rect { x: 0u16, y: 0u16, width: 0u16, height: 0u16 },
                orientation: crate::layouts::Orientation::Landscape,
                title_bar: None,
                input_bar: None,
                intro: None,
                search_bar: None,
                search_result: None,
                search_result_details: None,
            },
            bindings,
            queue: Seq::empty(),
            key_buffer: Seq::empty(),
            should_quit: false,
            should_suspend: false,
            pending_render: false,
            last_error: None,
        }
    }

    /// Create the orchestrator with the given key bindings.
    pub fn new(bindings: KeyBindings) -> (app: App)
        ensures
            app.wf(),
            app@ == App::initial(bindings@),
    {
        let first_focus = Focus { mode: Mode::Home, scene: Scenes::Home(HomeLayouts::Intro) };
        let app = App {
            components: Components {
                intro: Intro::new(),
                title_bar: TitleBar::new(),
                input_area: InputArea::new(),
                search_bar: SearchBar::new(),
                search_result: SearchResult::new(),
                search_result_details: SearchResultDetails::new(),
                song_list: SongList::new(),
            },
            focus_stack: FocusStack::new(first_focus),
            layout_manager: LayoutManager::new(),
            bindings,
            queue: Vec::new(),
            last_tick_key_events: Vec::new(),
            should_quit: false,
            should_suspend: false,
            pending_render: false,
            last_error: None,
        };
        proof {
            assert(app@ =~= App::initial(app.bindings@));
        }
        app
    }

    /// The active focus: the top of the focus stack.
    pub fn current_focus(&self) -> (f: Focus)
        requires
            self.wf(),
        ensures
            f == self@.focus.last(),
    {
        self.focus_stack.current()
    }

    /// Put one action at the back of the queue. The external adapters use
    /// this to inject actions from outside the dispatch cycle.
    pub fn enqueue(&mut self, action: Action)
        ensures
            final(self)@ == (AppV { queue: old(self)@.queue.push(action@), ..old(self)@ }),
            final(self).wf() == old(self).wf(),
    {
        self.queue.push(action);
        proof {
            assert(final(self)@ =~= (AppV {
                queue: old(self)@.queue.push(action@),
                ..old(self)@
            }));
        }
    }

    /// Dispatch one action: the orchestrator's own reaction, then the same
    /// action forwarded to every component in registration order. No
    /// component emits follow-up actions, so the queue is untouched.
    pub fn dispatch_action(&mut self, action: &Action)
        requires
            old(self).wf(),
        ensures
            final(self).wf(),
            final(self)@ == spec_step(old(self)@, action@),
    {
        match action {
            Action::Tick => {
                self.last_tick_key_events = Vec::new();
            },
            Action::Quit => {
                self.should_quit = true;
            },
            Action::Suspend => {
                self.should_suspend = true;
            },
            Action::Resume => {
                self.should_suspend = false;
            },
            Action::Resize(w, h) => {
                self.layout_manager.update(Rect { x: 0, y: 0, width: *w, height: *h });
                self.pending_render = true;
            },
            Action::Render => {
                self.pending_render = true;
            },
            Action::InputModeOn(_) => {
                let cur = self.focus_stack.current();
                self.focus_stack.push(Focus { mode: cur.mode, scene: Scenes::InputBar });
            },
            Action::InputModeOff(_) => {
                self.pop_focus_guarded();
            },
            Action::FocusSwitch(f) => {
                self.focus_stack.push(*f);
            },
            Action::FocusBack => {
                self.pop_focus_guarded();
            },
            Action::Error(m) => {
                self.last_error = Some(m.clone());
            },
            _ => {},
        }
        let _ = self.components.intro.update(action);
        let _ = self.components.input_area.update(action);
        let _ = self.components.search_bar.update(action);
        let _ = self.components.search_result.update(action);
        let _ = self.components.search_result_details.update(action);
        let _ = self.components.song_list.update(action);
        proof {
            assert(final(self)@ =~= spec_step(old(self)@, action@));
        }
    }

    /// Pop the focus stack unless only the seeded bottom element is left;
    /// then the pop would break the never-empty invariant, so the run stops
    /// with the violation recorded.
    fn pop_focus_guarded(&mut self)
        requires
            old(self).wf(),
        ensures
            final(self).wf(),
            final(self)@ == spec_focus_popped(old(self)@),
    {
        if self.focus_stack.len() > 1 {
            let _ = self.focus_stack.pop();
        } else {
            self.should_quit = true;
            self.last_error = Some("focus stack underflow".to_owned());
        }
    }

    /// Turn one external event into queued actions: the direct
    /// actions for quit, tick, render and resize; for a key, the
    /// binding resolution and the per-component key handling.
    pub fn handle_event(&mut self, event: Event)
        requires
            old(self).wf(),
        ensures
            final(self).wf(),
            final(self)@ == spec_handle_event(old(self)@, event),
    {
        match event {
            Event::Quit => self.enqueue(Action::Quit),
            Event::Tick => self.enqueue(Action::Tick),
            Event::Render => self.enqueue(Action::Render),
            Event::Resize(w, h) => self.enqueue(Action::Resize(w, h)),
            Event::Key(key) => self.route_key(key),
            Event::Mouse => {},
            Event::Other => {},
        }
    }

    /// Route one key event: outside input mode, resolve bindings (global
    /// bindings first — a global match suppresses the mode bindings for this
    /// key; an unmatched key joins the rolling buffer, which is then tried
    /// against multi-key bindings), and hand the key to every component.
    /// While the input bar holds the focus, only it sees the key.
    fn route_key(&mut self, key: Key)
        requires
            old(self).wf(),
        ensures
            final(self).wf(),
            final(self)@ == spec_key_event(old(self)@, key),
    {
        let focus = self.focus_stack.current();
        if matches!(focus.scene, Scenes::InputBar) {
            let emitted = self.components.input_area.handle_key_events(key, focus);
            match emitted {
                Some(a) => self.enqueue(a),
                None => {},
            }
            proof {
                assert(final(self)@ =~= spec_key_event(old(self)@, key));
            }
            return ;
        }
        let mut single: Vec<Key> = Vec::new();
        single.push(key);
        proof {
            assert(single@ =~= seq![key]);
        }
        match self.bindings.lookup(Mode::Global, &single) {
            Some(a) => self.enqueue(a),
            None => match self.bindings.lookup(focus.mode, &single) {
                Some(a) => self.enqueue(a),
                None => {
                    self.last_tick_key_events.push(key);
                    let found = self.bindings.lookup(focus.mode, &self.last_tick_key_events);
                    match found {
                        Some(a) => self.enqueue(a),
                        None => {},
                    }
                },
            },
        }
        let from_intro = self.components.intro.handle_key_events(key, focus);
        match from_intro {
            Some(a) => self.enqueue(a),
            None => {},
        }
        let from_input = self.components.input_area.handle_key_events(key, focus);
        match from_input {
            Some(a) => self.enqueue(a),
            None => {},
        }
        let from_search_bar = self.components.search_bar.handle_key_events(key, focus);
        match from_search_bar {
            Some(a) => self.enqueue(a),
            None => {},
        }
        let from_results = self.components.search_result.handle_key_events(key, focus);
        match from_results {
            Some(a) => self.enqueue(a),
            None => {},
        }
        proof {
            assert(final(self)@ =~= spec_key_event(old(self)@, key));
        }
    }

    /// Drain the queue: dispatch every queued action, in strict enqueue
    /// order, until the queue is empty.
    pub fn drain(&mut self)
        requires
            old(self).wf(),
        ensures
            final(self).wf(),
            final(self)@ == (AppV {
                queue: Seq::<ActionV>::empty(),
                ..spec_run_queue(old(self)@, old(self)@.queue)
            }),
    {
        let ghost mut processed: Seq<ActionV> = Seq::empty();
        proof {
            assert(processed + self@.queue =~= old(self)@.queue);
        }
        while self.queue.len() > 0
            invariant
                self.wf(),
                processed + self@.queue == old(self)@.queue,
                (AppV { queue: Seq::<ActionV>::empty(), ..self@ }) == (AppV {
                    queue: Seq::<ActionV>::empty(),
                    ..spec_run_queue(old(self)@, processed)
                }),
            decreases self.queue@.len(),
        {
            let ghost pre = self@;
            let a = self.queue.remove(0);
            proof {
                assert(self@.queue =~= pre.queue.drop_first());
                assert(self@ =~= (AppV { queue: pre.queue.drop_first(), ..pre }));
            }
            let ghost mid = self@;
            self.dispatch_action(&a);
            proof {
                lemma_step_queue(
                    (AppV { queue: Seq::<ActionV>::empty(), ..mid }),
                    mid.queue,
                    a@,
                );
                lemma_step_queue(
                    (AppV { queue: Seq::<ActionV>::empty(), ..spec_run_queue(old(self)@, processed) }),
                    mid.queue,
                    a@,
                );
                lemma_run_queue_snoc(old(self)@, processed, a@);
                assert(processed.push(a@) + self@.queue =~= processed + pre.queue);
                processed = processed.push(a@);
            }
        }
        proof {
            assert(processed =~= old(self)@.queue);
        }
    }

    /// What one scene contributes to the render pass: append its entry, or
    /// enqueue the error a visible scene without a layout surfaces.
    fn plan_scene(&mut self, entries: &mut Vec<RenderEntry>, scene: Scenes)
        requires
            old(self).wf(),
        ensures
            final(self).wf(),
            final(entries)@ == old(entries)@ + spec_scene_plan(old(self)@, scene),
            final(self)@ == (AppV {
                queue: old(self)@.queue + spec_scene_errors(old(self)@, scene),
                ..old(self)@
            }),
    {
        let focus = self.focus_stack.current();
        let mode = scene_mode_of(scene);
        if mode == focus.mode || matches!(mode, Mode::Global) {
            match self.layout_manager.get_component_layout(scene) {
                Ok(area) => {
                    entries.push(RenderEntry { scene, area });
                    proof {
                        assert(final(entries)@ =~= old(entries)@ + spec_scene_plan(
                            old(self)@,
                            scene,
                        ));
                        assert(final(self)@ =~= (AppV {
                            queue: old(self)@.queue + spec_scene_errors(old(self)@, scene),
                            ..old(self)@
                        }));
                    }
                },
                Err(_) => {
                    self.enqueue(
                        Action::Error(
                            "Failed to get layout: ".to_owned().concat(scene_name_str(scene)),
                        ),
                    );
                    proof {
                        assert(final(entries)@ =~= old(entries)@ + spec_scene_plan(
                            old(self)@,
                            scene,
                        ));
                        assert(final(self)@ =~= (AppV {
                            queue: old(self)@.queue + spec_scene_errors(old(self)@, scene),
                            ..old(self)@
                        }));
                    }
                },
            }
        } else {
            proof {
                assert(final(entries)@ =~= old(entries)@ + spec_scene_plan(old(self)@, scene));
                assert(final(self)@ =~= (AppV {
                    queue: old(self)@.queue + spec_scene_errors(old(self)@, scene),
                    ..old(self)@
                }));
            }
        }
    }

    /// Build the render pass for the current focus: every component whose
    /// area is active or global, paired with the rectangle the layout
    /// manager assigns its scene, in registration order. A visible scene
    /// without a layout is reported as an error action instead of drawn;
    /// the pass clears the redraw flag.
    #[verifier::rlimit(60)]
    pub fn render_plan(&mut self) -> (entries: Vec<RenderEntry>)
        requires
            old(self).wf(),
        ensures
            final(self).wf(),
            entries@ == spec_render_plan(old(self)@),
            final(self)@ == (AppV {
                queue: old(self)@.queue + spec_render_errors(old(self)@),
                pending_render: false,
                ..old(self)@
            }),
    {
        let mut entries: Vec<RenderEntry> = Vec::new();
        self.plan_scene(&mut entries, Scenes::Home(HomeLayouts::Intro));
        self.plan_scene(&mut entries, Scenes::TitleBar);
        self.plan_scene(&mut entries, Scenes::InputBar);
        self.plan_scene(&mut entries, Scenes::Download(DownloadLayouts::SearchBar));
        self.plan_scene(&mut entries, Scenes::Download(DownloadLayouts::SearchResult));
        self.plan_scene(&mut entries, Scenes::Download(DownloadLayouts::SearchResultDetails));
        self.plan_scene(&mut entries, Scenes::Manager(ManagerLayouts::SongList));
        self.pending_render = false;
        proof {
            assert(entries@ =~= spec_render_plan(old(self)@));
            assert(final(self)@ =~= (AppV {
                queue: old(self)@.queue + spec_render_errors(old(self)@),
                pending_render: false,
                ..old(self)@
            }));
        }
        entries
    }

    /// Whether the result list has a search outstanding; the adapter polls
    /// this to know when to run the external search.
    pub fn search_pending(&self) -> (b: bool)
        ensures
            b == self@.components.results.pending,
    {
        self.components.search_result.pending
    }

    /// The generation of the outstanding search request.
    pub fn search_generation(&self) -> (g: u64)
        ensures
            g == self@.components.results.generation,
    {
        self.components.search_result.generation
    }

    /// The query of the outstanding search request.
    pub fn search_query(&self) -> (q: String)
        ensures
            q@ == self@.components.results.query,
    {
        self.components.search_result.search_query.clone()
    }

    /// Hand the result list the outcome of the search spawned under the
    /// given generation; whatever error it surfaces is enqueued.
    pub fn deliver_search_outcome(&mut self, generation: u64, outcome: SearchOutcome)
        requires
            old(self).wf(),
        ensures
            final(self).wf(),
            final(self)@ == (AppV {
                components: ComponentsV {
                    results: SearchResult::spec_outcome_state(
                        old(self)@.components.results,
                        generation,
                        outcome@,
                    ),
                    ..old(self)@.components
                },
                queue: old(self)@.queue + opt_to_seq(
                    SearchResult::spec_outcome_out(
                        old(self)@.components.results,
                        generation,
                        outcome@,
                    ),
                ),
                ..old(self)@
            }),
    {
        let emitted = self.components.search_result.deliver_search_outcome(generation, outcome);
        match emitted {
            Some(a) => self.enqueue(a),
            None => {},
        }
        proof {
            assert(final(self)@ =~= (AppV {
                components: ComponentsV {
                    results: SearchResult::spec_outcome_state(
                        old(self)@.components.results,
                        generation,
                        outcome@,
                    ),
                    ..old(self)@.components
                },
                queue: old(self)@.queue + opt_to_seq(
                    SearchResult::spec_outcome_out(
                        old(self)@.components.results,
                        generation,
                        outcome@,
                    ),
                ),
                ..old(self)@
            }));
        }
    }
}

/// The area a scene belongs to, as `scene_mode` gives it.
fn scene_mode_of(sc: Scenes) -> (m: Mode)
    ensures
        m == scene_mode(sc),
{
    match sc {
        Scenes::Home(_) => Mode::Home,
        Scenes::Download(_) => Mode::Download,
        Scenes::Manager(_) => Mode::Manager,
        Scenes::InputBar => Mode::Global,
        Scenes::TitleBar => Mode::Global,
    }
}

/// The name a scene is reported under, as `scene_name` gives it.
fn scene_name_str(sc: Scenes) -> (r: &'static str)
    ensures
        r@ == scene_name(sc),
{
    match sc {
        Scenes::Home(HomeLayouts::Intro) => "Intro",
        Scenes::Download(DownloadLayouts::SearchBar) => "SearchBar",
        Scenes::Download(DownloadLayouts::SearchResult) => "SearchResult",
        Scenes::Download(DownloadLayouts::SearchResultDetails) => "SearchResultDetails",
        Scenes::Manager(ManagerLayouts::SongList) => "SongList",
        Scenes::InputBar => "InputBar",
        Scenes::TitleBar => "TitleBar",
    }
}

} // verus!
