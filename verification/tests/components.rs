//! Tests of the individual components: the input bar's editing and its
//! round trip, the result list's selection, and the display texts.

use muzik_tui::action::{Action, InputIn, InputOut};
use muzik_tui::components::download::{
    display_title, SearchBar, SearchOutcome, SearchResult, SearchResultDetails, YoutubeVideo,
};
use muzik_tui::components::general::InputArea;
use muzik_tui::keys::{Key, KeyCode};
use muzik_tui::layouts::{DownloadLayouts, Focus, Scenes};
use muzik_tui::mode::Mode;

fn input_focus() -> Focus {
    Focus { mode: Mode::Download, scene: Scenes::InputBar }
}

fn video(id: &str, title: Option<&str>) -> YoutubeVideo {
    YoutubeVideo::new(
        id.to_string(),
        title.map(|t| t.to_string()),
        None,
        None,
        None,
        None,
    )
}

#[test]
fn input_round_trip_returns_initial_value() {
    let mut input = InputArea::new();
    let on = Action::InputModeOn(InputIn {
        input_name: "x".to_string(),
        initial_value: Some("abc".to_string()),
    });
    assert_eq!(input.update(&on), None);
    assert_eq!(input.input_buffer, vec!['a', 'b', 'c']);
    assert_eq!(input.position, 3);

    let out = input.handle_key_events(Key::press(KeyCode::Enter), input_focus());
    assert_eq!(
        out,
        Some(Action::InputModeOff(InputOut {
            input_name: Some("x".to_string()),
            buffer: "abc".to_string(),
        }))
    );
    // The buffer itself is untouched by submitting it.
    assert_eq!(input.input_buffer, vec!['a', 'b', 'c']);
}

#[test]
fn input_editing_moves_and_deletes() {
    let mut input = InputArea::new();
    let on = Action::InputModeOn(InputIn {
        input_name: "q".to_string(),
        initial_value: Some("ab".to_string()),
    });
    input.update(&on);

    // Cursor starts behind the initial value; insert at the end.
    input.handle_key_events(Key::press(KeyCode::Char('c')), input_focus());
    assert_eq!(input.input_buffer, vec!['a', 'b', 'c']);
    // Move left twice and insert in the middle.
    input.handle_key_events(Key::press(KeyCode::Left), input_focus());
    input.handle_key_events(Key::press(KeyCode::Left), input_focus());
    input.handle_key_events(Key::press(KeyCode::Char('x')), input_focus());
    assert_eq!(input.input_buffer, vec!['a', 'x', 'b', 'c']);
    // Backspace removes the character before the cursor.
    input.handle_key_events(Key::press(KeyCode::Backspace), input_focus());
    assert_eq!(input.input_buffer, vec!['a', 'b', 'c']);
    // Escape cancels: no name, empty buffer.
    let cancelled = input.handle_key_events(Key::press(KeyCode::Esc), input_focus());
    assert_eq!(
        cancelled,
        Some(Action::InputModeOff(InputOut { input_name: None, buffer: String::new() }))
    );
}

#[test]
fn input_ignores_keys_without_focus() {
    let mut input = InputArea::new();
    let elsewhere = Focus { mode: Mode::Home, scene: Scenes::Home(muzik_tui::layouts::HomeLayouts::Intro) };
    assert_eq!(input.handle_key_events(Key::press(KeyCode::Char('a')), elsewhere), None);
    assert_eq!(input.input_buffer, Vec::<char>::new());
}

#[test]
fn search_bar_requests_input_and_adopts_query() {
    let mut bar = SearchBar::new();
    assert_eq!(bar.status_text(), "Press <s> to begin search");

    let focus = Focus { mode: Mode::Download, scene: Scenes::Download(DownloadLayouts::SearchResult) };
    let emitted = bar.handle_key_events(Key::press(KeyCode::Char('s')), focus);
    assert_eq!(
        emitted,
        Some(Action::InputModeOn(InputIn {
            input_name: "youtube_search".to_string(),
            initial_value: None,
        }))
    );

    let off = Action::InputModeOff(InputOut {
        input_name: Some("youtube_search".to_string()),
        buffer: "suisei".to_string(),
    });
    bar.update(&off);
    assert_eq!(bar.search_query, "suisei");
    assert_eq!(bar.status_text(), "Searching for suisei...");
}

#[test]
fn result_list_selection_wraps() {
    let mut list = SearchResult::new();
    list.search_result_videos = Some(vec![video("a", None), video("b", None), video("c", None)]);

    list.list_next();
    assert_eq!(list.selected, Some(0));
    list.list_next();
    list.list_next();
    assert_eq!(list.selected, Some(2));
    list.list_next();
    assert_eq!(list.selected, Some(0));
    list.previous_list();
    assert_eq!(list.selected, Some(2));
    list.unselect_list();
    assert_eq!(list.selected, None);
}

#[test]
fn stale_search_outcome_is_discarded() {
    let mut list = SearchResult::new();
    let off = Action::InputModeOff(InputOut {
        input_name: Some("youtube_search".to_string()),
        buffer: "first".to_string(),
    });
    list.update(&off);
    let first_generation = list.generation;
    // A second request supersedes the first.
    let off2 = Action::InputModeOff(InputOut {
        input_name: Some("youtube_search".to_string()),
        buffer: "second".to_string(),
    });
    list.update(&off2);
    assert!(list.pending);
    assert_eq!(list.generation, first_generation + 1);

    // The superseded task's outcome is ignored.
    list.deliver_search_outcome(first_generation, SearchOutcome::Success(vec![video("a", None)]));
    assert!(list.pending);
    assert_eq!(list.search_result_videos, None);

    // The current one lands.
    list.deliver_search_outcome(list.generation, SearchOutcome::Success(vec![video("b", None)]));
    assert!(!list.pending);
    assert_eq!(list.search_result_videos, Some(vec![video("b", None)]));
}

#[test]
fn failed_search_surfaces_error() {
    let mut list = SearchResult::new();
    let off = Action::InputModeOff(InputOut {
        input_name: Some("youtube_search".to_string()),
        buffer: "q".to_string(),
    });
    list.update(&off);
    let emitted =
        list.deliver_search_outcome(list.generation, SearchOutcome::Failure("boom".to_string()));
    assert_eq!(emitted, Some(Action::Error("youtube search failed: boom".to_string())));
    assert!(!list.pending);
}

#[test]
fn abandoned_search_surfaces_error() {
    let mut list = SearchResult::new();
    let off = Action::InputModeOff(InputOut {
        input_name: Some("youtube_search".to_string()),
        buffer: "q".to_string(),
    });
    list.update(&off);
    let emitted = list.deliver_search_outcome(list.generation, SearchOutcome::Closed);
    assert_eq!(emitted, Some(Action::Error("youtube search channel closed".to_string())));
    assert!(!list.pending);
}

#[test]
fn details_panel_texts() {
    let mut details = SearchResultDetails::new();
    assert_eq!(details.detail_lines(), Vec::<String>::new());

    let v = YoutubeVideo::new(
        "id0".to_string(),
        Some("Stellar Stellar".to_string()),
        Some("Suisei Channel".to_string()),
        None,
        Some("Hoshimachi Suisei".to_string()),
        None,
    );
    details.update(&Action::DownloadShowSearchDetails(Some(v.clone())));
    assert_eq!(
        details.detail_lines(),
        vec![
            "Id: id0".to_string(),
            "Title: Stellar Stellar".to_string(),
            "Channel: Suisei Channel".to_string(),
            "Artist: Hoshimachi Suisei".to_string(),
            "Album: Unknown".to_string(),
        ]
    );
    assert_eq!(display_title(&v), "Stellar Stellar");
    assert_eq!(display_title(&video("x", None)), "Unknown");
}
