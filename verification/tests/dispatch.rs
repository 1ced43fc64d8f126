//! Tests of the orchestrator: the dispatch cycle end to end, the key
//! routing rules, the rolling key buffer, the focus stack, and the render
//! pass.

use muzik_tui::action::{Action, InputIn, InputOut};
use muzik_tui::app::{App, RenderEntry};
use muzik_tui::components::download::{SearchOutcome, YoutubeVideo};
use muzik_tui::focus::FocusStack;
use muzik_tui::keybinds::KeyBindings;
use muzik_tui::keys::{Event, Key, KeyCode};
use muzik_tui::layouts::{DownloadLayouts, Focus, HomeLayouts, Rect, Scenes};
use muzik_tui::mode::Mode;

fn fresh_app() -> App {
    App::new(KeyBindings::new())
}

fn key(c: char) -> Event {
    Event::Key(Key::press(KeyCode::Char(c)))
}

fn video(id: &str, title: &str) -> YoutubeVideo {
    YoutubeVideo::new(id.to_string(), Some(title.to_string()), None, None, None, None)
}

#[test]
fn focus_stack_stays_non_empty() {
    let bottom = Focus { mode: Mode::Home, scene: Scenes::Home(HomeLayouts::Intro) };
    let mut stack = FocusStack::new(bottom);
    assert_eq!(stack.len(), 1);
    assert_eq!(stack.current(), bottom);

    let next = Focus { mode: Mode::Download, scene: Scenes::Download(DownloadLayouts::SearchBar) };
    stack.push(next);
    assert_eq!(stack.len(), 2);
    assert_eq!(stack.current(), next);
    assert_eq!(stack.pop(), next);
    assert_eq!(stack.len(), 1);
    assert_eq!(stack.current(), bottom);
}

#[test]
fn popping_the_seeded_focus_is_fatal() {
    let mut app = fresh_app();
    app.enqueue(Action::FocusBack);
    app.drain();
    assert!(app.should_quit);
    assert_eq!(app.last_error, Some("focus stack underflow".to_string()));
}

#[test]
fn quit_suspend_and_error_actions_set_state() {
    let mut app = fresh_app();
    app.handle_event(Event::Quit);
    app.enqueue(Action::Suspend);
    app.enqueue(Action::Error("oh no".to_string()));
    app.drain();
    assert!(app.should_quit);
    assert!(app.should_suspend);
    assert_eq!(app.last_error, Some("oh no".to_string()));
    app.enqueue(Action::Resume);
    app.drain();
    assert!(!app.should_suspend);
}

#[test]
fn search_flow_end_to_end() {
    let mut app = fresh_app();

    // Enter on the intro screen moves the focus into the download area.
    app.handle_event(Event::Key(Key::press(KeyCode::Enter)));
    app.drain();
    assert_eq!(
        app.current_focus(),
        Focus { mode: Mode::Download, scene: Scenes::Download(DownloadLayouts::SearchResult) }
    );

    // A plain `s` with no active input mode asks for input under the search
    // correlation name.
    app.handle_event(key('s'));
    assert_eq!(
        app.queue,
        vec![Action::InputModeOn(InputIn {
            input_name: "youtube_search".to_string(),
            initial_value: None,
        })]
    );
    app.drain();
    assert_eq!(app.current_focus(), Focus { mode: Mode::Download, scene: Scenes::InputBar });

    // Type the query into the input bar and submit it.
    for c in "suisei".chars() {
        app.handle_event(key(c));
        app.drain();
    }
    app.handle_event(Event::Key(Key::press(KeyCode::Enter)));
    assert_eq!(
        app.queue,
        vec![Action::InputModeOff(InputOut {
            input_name: Some("youtube_search".to_string()),
            buffer: "suisei".to_string(),
        })]
    );
    app.drain();

    // Input mode is over, the result list has the request outstanding.
    assert_eq!(
        app.current_focus(),
        Focus { mode: Mode::Download, scene: Scenes::Download(DownloadLayouts::SearchResult) }
    );
    assert!(app.search_pending());
    assert_eq!(app.search_query(), "suisei");
    let generation = app.search_generation();

    // A successful external result populates the visible list, in order.
    let found = vec![video("a", "first"), video("b", "second"), video("c", "third")];
    app.deliver_search_outcome(generation, SearchOutcome::Success(found.clone()));
    app.drain();
    assert!(!app.search_pending());
    assert_eq!(app.components.search_result.search_result_videos, Some(found));
}

#[test]
fn typing_in_input_mode_reaches_only_the_input_bar() {
    let mut app = fresh_app();
    app.handle_event(Event::Key(Key::press(KeyCode::Enter)));
    app.drain();
    app.handle_event(key('s'));
    app.drain();

    // While the input bar holds the focus, `s` is a character for the
    // buffer, not a search request: nothing is enqueued.
    app.handle_event(key('s'));
    assert_eq!(app.queue, Vec::<Action>::new());
    assert_eq!(app.components.input_area.input_buffer, vec!['s']);
}

#[test]
fn multi_key_sequence_fires_once_buffered() {
    let mut bindings = KeyBindings::new();
    bindings.bind(
        Mode::Home,
        vec![Key::press(KeyCode::Char('g')), Key::press(KeyCode::Char('g'))],
        Action::Help,
    );
    let mut app = App::new(bindings);

    // A lone `g` produces no action and joins the rolling buffer.
    app.handle_event(key('g'));
    assert_eq!(app.queue, Vec::<Action>::new());
    assert_eq!(app.last_tick_key_events, vec![Key::press(KeyCode::Char('g'))]);

    // A second `g` within the same un-ticked window completes the sequence.
    app.handle_event(key('g'));
    assert_eq!(app.queue, vec![Action::Help]);
    app.drain();

    // A tick clears the buffer: a lone `g` afterwards does not fire.
    app.handle_event(key('g'));
    app.handle_event(Event::Tick);
    app.drain();
    assert_eq!(app.last_tick_key_events, Vec::<Key>::new());
    app.handle_event(key('g'));
    assert_eq!(app.queue, Vec::<Action>::new());
}

#[test]
fn global_binding_suppresses_mode_binding() {
    let mut bindings = KeyBindings::new();
    bindings.bind(Mode::Global, vec![Key::press(KeyCode::Char('q'))], Action::Quit);
    bindings.bind(Mode::Home, vec![Key::press(KeyCode::Char('q'))], Action::Help);
    let mut app = App::new(bindings);

    app.handle_event(key('q'));
    assert_eq!(app.queue, vec![Action::Quit]);
}

#[test]
fn first_matching_binding_wins() {
    let mut bindings = KeyBindings::new();
    bindings.bind(Mode::Home, vec![Key::press(KeyCode::Char('h'))], Action::Help);
    bindings.bind(Mode::Home, vec![Key::press(KeyCode::Char('h'))], Action::Refresh);
    let mut app = App::new(bindings);

    app.handle_event(key('h'));
    assert_eq!(app.queue, vec![Action::Help]);
}

#[test]
fn resize_rebuilds_layout_and_render_plan_follows_focus() {
    let mut app = fresh_app();
    app.enqueue(Action::Resize(80, 24));
    app.drain();
    assert!(app.pending_render);

    // At the intro screen only the global strips and the intro itself draw.
    let plan = app.render_plan();
    assert_eq!(
        plan,
        vec![
            RenderEntry {
                scene: Scenes::Home(HomeLayouts::Intro),
                area: Rect { x: 0, y: 1, width: 80, height: 20 },
            },
            RenderEntry { scene: Scenes::TitleBar, area: Rect { x: 0, y: 0, width: 80, height: 1 } },
            RenderEntry { scene: Scenes::InputBar, area: Rect { x: 0, y: 21, width: 80, height: 3 } },
        ]
    );
    assert!(!app.pending_render);
    assert_eq!(app.queue, Vec::<Action>::new());

    // In the download area the three download scenes draw instead.
    app.enqueue(Action::FocusSwitch(Focus {
        mode: Mode::Download,
        scene: Scenes::Download(DownloadLayouts::SearchResult),
    }));
    app.drain();
    let plan = app.render_plan();
    let scenes: Vec<Scenes> = plan.iter().map(|e| e.scene).collect();
    assert_eq!(
        scenes,
        vec![
            Scenes::TitleBar,
            Scenes::InputBar,
            Scenes::Download(DownloadLayouts::SearchBar),
            Scenes::Download(DownloadLayouts::SearchResult),
            Scenes::Download(DownloadLayouts::SearchResultDetails),
        ]
    );
}

#[test]
fn missing_layout_becomes_error_action() {
    let mut app = fresh_app();
    app.enqueue(Action::Resize(80, 24));
    app.drain();
    app.enqueue(Action::FocusSwitch(Focus {
        mode: Mode::Manager,
        scene: Scenes::Manager(muzik_tui::layouts::ManagerLayouts::SongList),
    }));
    app.drain();

    // The song-list scene has no layout: the render pass reports it and
    // still draws the global strips.
    let plan = app.render_plan();
    let scenes: Vec<Scenes> = plan.iter().map(|e| e.scene).collect();
    assert_eq!(scenes, vec![Scenes::TitleBar, Scenes::InputBar]);
    assert_eq!(
        app.queue,
        vec![Action::Error("Failed to get layout: SongList".to_string())]
    );
    app.drain();
    assert_eq!(app.last_error, Some("Failed to get layout: SongList".to_string()));
}
