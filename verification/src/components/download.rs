//! Components of the download area: the search-query bar, the result list
//! and the details panel, together with the plain-value summary of one video
//! that the external search provider yields.
//!
//! The result list owns the one outstanding search request: entering a new
//! query marks a request pending under a fresh generation number, and the
//! adapter running the external search later delivers the outcome with the
//! generation it answers — an outcome for a superseded generation is
//! discarded.

use vstd::prelude::*;

use crate::action::{opt_action_view, Action, ActionV, InputIn, InputInV};
use crate::keys::{Key, KeyCode, KeyMods};
use crate::layouts::{DownloadLayouts, Focus, Scenes};
use crate::mode::Mode;
use vstd::string::StringExecFns;

verus! {

/// Plain-value summary of one video returned by the external search
/// provider.
#[derive(Debug, PartialEq, Eq)]
pub struct YoutubeVideo {
    pub id: String,
    pub title: Option<String>,
    pub channel: Option<String>,
    pub album: Option<String>,
    pub artist: Option<String>,
    pub genre: Option<String>,
}

/// Mathematical image of a `YoutubeVideo`.
#[verifier::ext_equal]
pub struct VideoV {
    pub id: Seq<char>,
    pub title: Option<Seq<char>>,
    pub channel: Option<Seq<char>>,
    pub album: Option<Seq<char>>,
    pub artist: Option<Seq<char>>,
    pub genre: Option<Seq<char>>,
}

/// The view of an optional owned string: the character sequence, if any.
pub open spec fn opt_view(s: Option<String>) -> Option<Seq<char>> {
    match s {
        Some(v) => Some(v@),
        None => None,
    }
}

impl View for YoutubeVideo {
    type V = VideoV;

    open spec fn view(&self) -> VideoV {
        VideoV {
            id: self.id@,
            title: opt_view(self.title),
            channel: opt_view(self.channel),
            album: opt_view(self.album),
            artist: opt_view(self.artist),
            genre: opt_view(self.genre),
        }
    }
}

impl Clone for YoutubeVideo {
    fn clone(&self) -> (r: Self)
        ensures
            r == *self,
    {
        YoutubeVideo {
            id: self.id.clone(),
            title: self.title.clone(),
            channel: self.channel.clone(),
            album: self.album.clone(),
            artist: self.artist.clone(),
            genre: self.genre.clone(),
        }
    }
}

impl YoutubeVideo {
    pub fn new(
        id: String,
        title: Option<String>,
        channel: Option<String>,
        album: Option<String>,
        artist: Option<String>,
        genre: Option<String>,
    ) -> (v: YoutubeVideo)
        ensures
            v == (YoutubeVideo { id, title, channel, album, artist, genre }),
    {
        YoutubeVideo { id, title, channel, album, artist, genre }
    }
}

/// The correlation name under which the search bar requests input.
pub open spec fn search_input_name() -> Seq<char> {
    "youtube_search"@
}

/// Whether this is the name the search bar requested input under.
fn is_search_name(name: &String) -> (r: bool)
    ensures
        r == (name@ == search_input_name()),
{
    let lit: String = "youtube_search".to_owned();
    *name == lit
}

/// A string drawn in place of a missing optional field.
pub open spec fn or_unknown(s: Option<Seq<char>>) -> Seq<char> {
    match s {
        Some(v) => v,
        None => "Unknown"@,
    }
}

/// Mathematical image of the search bar's state.
#[verifier::ext_equal]
pub struct SearchBarV {
    pub query: Seq<char>,
}

/// The single-line bar showing what is being searched for.
pub struct SearchBar {
    pub search_query: String,
}

impl View for SearchBar {
    type V = SearchBarV;

    open spec fn view(&self) -> SearchBarV {
        SearchBarV { query: self.search_query@ }
    }
}

impl SearchBar {
    pub fn new() -> (c: SearchBar)
        ensures
            c@ == (SearchBarV { query: Seq::<char>::empty() }),
    {
        SearchBar { search_query: String::new() }
    }

    pub fn scene(&self) -> (s: Scenes)
        ensures
            s == Scenes::Download(DownloadLayouts::SearchBar),
    {
        Scenes::Download(DownloadLayouts::SearchBar)
    }

    pub fn mode(&self) -> (m: Mode)
        ensures
            m == Mode::Download,
    {
        Mode::Download
    }

    /// The action one key event emits: a plain `s` anywhere in the download
    /// area asks for input under the search correlation name.
    pub open spec fn spec_key_out(key: Key, focus: Focus) -> Option<ActionV> {
        if focus.mode == Mode::Download && key.mods == KeyMods::Plain && key.code
            == KeyCode::Char('s') {
            Some(
                ActionV::InputModeOn(
                    (InputInV { input_name: search_input_name(), initial_value: None }),
                ),
            )
        } else {
            None
        }
    }

    pub fn handle_key_events(&mut self, key: Key, focus: Focus) -> (r: Option<Action>)
        ensures
            *final(self) == *old(self),
            opt_action_view(r) == Self::spec_key_out(key, focus),
    {
        if focus.mode == Mode::Download && matches!(key.mods, KeyMods::Plain) && matches!(
            key.code,
            KeyCode::Char('s'),
        ) {
            return Some(
                Action::InputModeOn(
                    InputIn { input_name: "youtube_search".to_owned(), initial_value: None },
                ),
            );
        }
        None
    }

    /// The state after reacting to an action: a successful input under the
    /// search name becomes the displayed query.
    pub open spec fn spec_update(s: SearchBarV, a: ActionV) -> SearchBarV {
        match a {
            ActionV::InputModeOff(out) => match out.input_name {
                Some(name) => if name == search_input_name() {
                    SearchBarV { query: out.buffer }
                } else {
                    s
                },
                None => s,
            },
            _ => s,
        }
    }

    /// React to a forwarded action; emits nothing.
    pub fn update(&mut self, action: &Action) -> (r: Option<Action>)
        ensures
            final(self)@ == Self::spec_update(old(self)@, action@),
            r is None,
    {
        match action {
            Action::InputModeOff(out) => match &out.input_name {
                Some(name) => if is_search_name(name) {
                    self.search_query = out.buffer.clone();
                },
                None => {},
            },
            _ => {},
        }
        None
    }

    /// The text the bar displays: an invitation while no query was entered,
    /// the query being searched for afterwards.
    pub fn status_text(&self) -> (r: String)
        ensures
            self@.query.len() == 0 ==> r@ == "Press <s> to begin search"@,
            self@.query.len() != 0 ==> r@ == "Searching for "@ + self@.query + "..."@,
    {
        if self.search_query.as_str().is_empty() {
            "Press <s> to begin search".to_owned()
        } else {
            "Searching for ".to_owned().concat(self.search_query.as_str()).concat("...")
        }
    }
}

/// Outcome of one run of the external search, as the adapter delivers it.
#[derive(Debug, PartialEq, Eq)]
pub enum SearchOutcome {
    /// The provider answered with these videos, in its order.
    Success(Vec<YoutubeVideo>),
    /// The provider failed with this message.
    Failure(String),
    /// The task was abandoned without an answer.
    Closed,
}

/// Mathematical image of a `SearchOutcome`.
#[verifier::ext_equal]
pub enum SearchOutcomeV {
    Success(Seq<VideoV>),
    Failure(Seq<char>),
    Closed,
}

impl View for SearchOutcome {
    type V = SearchOutcomeV;

    open spec fn view(&self) -> SearchOutcomeV {
        match self {
            SearchOutcome::Success(vs) => SearchOutcomeV::Success(
                vs@.map_values(|v: YoutubeVideo| v@),
            ),
            SearchOutcome::Failure(m) => SearchOutcomeV::Failure(m@),
            SearchOutcome::Closed => SearchOutcomeV::Closed,
        }
    }
}

/// Mathematical image of the result list's state.
#[verifier::ext_equal]
pub struct SearchResultV {
    pub query: Seq<char>,
    pub pending: bool,
    pub generation: u64,
    pub videos: Option<Seq<VideoV>>,
    pub selected: Option<int>,
}

/// The list of videos the last search returned, with its selection and the
/// one outstanding request slot.
pub struct SearchResult {
    pub search_query: String,
    /// A search for `search_query` is outstanding.
    pub pending: bool,
    /// Bumped on every new request; an outcome delivered under an older
    /// generation is stale and discarded.
    pub generation: u64,
    pub search_result_videos: Option<Vec<YoutubeVideo>>,
    pub selected: Option<usize>,
}

impl View for SearchResult {
    type V = SearchResultV;

    open spec fn view(&self) -> SearchResultV {
        SearchResultV {
            query: self.search_query@,
            pending: self.pending,
            generation: self.generation,
            videos: match self.search_result_videos {
                Some(vs) => Some(vs@.map_values(|v: YoutubeVideo| v@)),
                None => None,
            },
            selected: match self.selected {
                Some(i) => Some(i as int),
                None => None,
            },
        }
    }
}

/// The generation after one more request; the counter wraps rather than
/// running out.
pub open spec fn next_generation(g: u64) -> u64 {
    if g == u64::MAX {
        0
    } else {
        (g + 1) as u64
    }
}

impl SearchResult {
    pub fn new() -> (c: SearchResult)
        ensures
            c@ == (SearchResultV {
                query: Seq::<char>::empty(),
                pending: false,
                generation: 0,
                videos: None,
                selected: None,
            }),
    {
        SearchResult {
            search_query: String::new(),
            pending: false,
            generation: 0,
            search_result_videos: None,
            selected: None,
        }
    }

    pub fn scene(&self) -> (s: Scenes)
        ensures
            s == Scenes::Download(DownloadLayouts::SearchResult),
    {
        Scenes::Download(DownloadLayouts::SearchResult)
    }

    pub fn mode(&self) -> (m: Mode)
        ensures
            m == Mode::Download,
    {
        Mode::Download
    }

    /// The selection after moving down once: the next entry, wrapping to the
    /// top past the end; without a list or a selection, the top.
    pub open spec fn next_selection(s: SearchResultV) -> Option<int> {
        match (s.videos, s.selected) {
            (Some(vs), Some(i)) => if i + 1 >= vs.len() {
                Some(0)
            } else {
                Some(i + 1)
            },
            _ => Some(0),
        }
    }

    /// The selection after moving up once: the previous entry, wrapping to
    /// the bottom before the start; without a list or a selection, the top.
    pub open spec fn prev_selection(s: SearchResultV) -> Option<int> {
        match (s.videos, s.selected) {
            (Some(vs), Some(i)) => if i == 0 {
                if vs.len() >= 1 {
                    Some(vs.len() - 1)
                } else {
                    Some(0)
                }
            } else {
                Some(i - 1)
            },
            _ => Some(0),
        }
    }

    /// The video the selection points at, if it points into the list.
    pub open spec fn spec_selected_video(s: SearchResultV) -> Option<VideoV> {
        match (s.selected, s.videos) {
            (Some(i), Some(vs)) => if 0 <= i < vs.len() {
                Some(vs[i])
            } else {
                None
            },
            _ => None,
        }
    }

    /// Select the next entry, wrapping past the end.
    pub fn list_next(&mut self)
        ensures
            final(self)@ == (SearchResultV {
                selected: Self::next_selection(old(self)@),
                ..old(self)@
            }),
    {
        match (&self.search_result_videos, self.selected) {
            (Some(videos), Some(index)) => {
                if videos.len() == 0 || index >= videos.len() - 1 {
                    self.selected = Some(0);
                } else {
                    self.selected = Some(index + 1);
                }
            },
            _ => {
                self.selected = Some(0);
            },
        }
    }

    /// Select the previous entry, wrapping before the start.
    pub fn previous_list(&mut self)
        ensures
            final(self)@ == (SearchResultV {
                selected: Self::prev_selection(old(self)@),
                ..old(self)@
            }),
    {
        match (&self.search_result_videos, self.selected) {
            (Some(videos), Some(index)) => {
                if index == 0 {
                    if videos.len() >= 1 {
                        self.selected = Some(videos.len() - 1);
                    } else {
                        self.selected = Some(0);
                    }
                } else {
                    self.selected = Some(index - 1);
                }
            },
            _ => {
                self.selected = Some(0);
            },
        }
    }

    /// Drop the selection.
    pub fn unselect_list(&mut self)
        ensures
            final(self)@ == (SearchResultV { selected: None, ..old(self)@ }),
    {
        self.selected = None;
    }

    /// The currently selected video, if the selection points into the list.
    fn get_current_selected_list_youtube_video(&self) -> (r: Option<YoutubeVideo>)
        ensures
            opt_video_view(r) == Self::spec_selected_video(self@),
    {
        if let Some(index) = self.selected {
            if let Some(videos) = &self.search_result_videos {
                if index < videos.len() {
                    return Some(videos[index].clone());
                }
            }
        }
        None
    }

    /// Whether a key event reaches the list: it must hold the focus and the
    /// key must carry no modifiers.
    pub open spec fn key_relevant(focus: Focus, key: Key) -> bool {
        focus.scene == Scenes::Download(DownloadLayouts::SearchResult) && key.mods
            == KeyMods::Plain
    }

    /// The list state after one key event: down and up move the selection;
    /// escape drops it, or does nothing when there is none.
    pub open spec fn spec_key_state(s: SearchResultV, key: Key, focus: Focus) -> SearchResultV {
        if !Self::key_relevant(focus, key) {
            s
        } else {
            match key.code {
                KeyCode::Char('j') | KeyCode::Down => SearchResultV {
                    selected: Self::next_selection(s),
                    ..s
                },
                KeyCode::Char('k') | KeyCode::Up => SearchResultV {
                    selected: Self::prev_selection(s),
                    ..s
                },
                KeyCode::Esc => if s.selected is Some {
                    SearchResultV { selected: None, ..s }
                } else {
                    s
                },
                _ => s,
            }
        }
    }

    /// The action one key event emits: moving the selection announces the
    /// newly selected video to the details panel; escape clears the details
    /// when a selection existed, and steps the focus back otherwise.
    pub open spec fn spec_key_out(s: SearchResultV, key: Key, focus: Focus) -> Option<ActionV> {
        if !Self::key_relevant(focus, key) {
            None
        } else {
            match key.code {
                KeyCode::Char('j') | KeyCode::Down => Some(
                    ActionV::DownloadShowSearchDetails(
                        Self::spec_selected_video(Self::spec_key_state(s, key, focus)),
                    ),
                ),
                KeyCode::Char('k') | KeyCode::Up => Some(
                    ActionV::DownloadShowSearchDetails(
                        Self::spec_selected_video(Self::spec_key_state(s, key, focus)),
                    ),
                ),
                KeyCode::Esc => if s.selected is Some {
                    Some(ActionV::DownloadShowSearchDetails(None))
                } else {
                    Some(ActionV::FocusBack)
                },
                _ => None,
            }
        }
    }

    /// Move the selection or leave the list, as the key demands.
    pub fn handle_key_events(&mut self, key: Key, focus: Focus) -> (r: Option<Action>)
        ensures
            final(self)@ == Self::spec_key_state(old(self)@, key, focus),
            opt_action_view(r) == Self::spec_key_out(old(self)@, key, focus),
    {
        if matches!(focus.scene, Scenes::Download(DownloadLayouts::SearchResult)) && matches!(
            key.mods,
            KeyMods::Plain,
        ) {
            match key.code {
                KeyCode::Char('j') | KeyCode::Down => {
                    self.list_next();
                    return Some(
                        Action::DownloadShowSearchDetails(
                            self.get_current_selected_list_youtube_video(),
                        ),
                    );
                },
                KeyCode::Char('k') | KeyCode::Up => {
                    self.previous_list();
                    return Some(
                        Action::DownloadShowSearchDetails(
                            self.get_current_selected_list_youtube_video(),
                        ),
                    );
                },
                KeyCode::Esc => {
                    if self.selected.is_some() {
                        self.unselect_list();
                        return Some(Action::DownloadShowSearchDetails(None));
                    } else {
                        return Some(Action::FocusBack);
                    }
                },
                _ => {},
            }
        }
        None
    }

    /// The state after reacting to an action: a successful input under the
    /// search name adopts the query and marks a request outstanding under a
    /// fresh generation, superseding any pending one.
    pub open spec fn spec_update(s: SearchResultV, a: ActionV) -> SearchResultV {
        match a {
            ActionV::InputModeOff(out) => match out.input_name {
                Some(name) => if name == search_input_name() {
                    SearchResultV {
                        query: out.buffer,
                        pending: true,
                        generation: next_generation(s.generation),
                        ..s
                    }
                } else {
                    s
                },
                None => s,
            },
            _ => s,
        }
    }

    /// React to a forwarded action; emits nothing.
    pub fn update(&mut self, action: &Action) -> (r: Option<Action>)
        ensures
            final(self)@ == Self::spec_update(old(self)@, action@),
            r is None,
    {
        match action {
            Action::InputModeOff(out) => match &out.input_name {
                Some(name) => if is_search_name(name) {
                    self.search_query = out.buffer.clone();
                    self.pending = true;
                    self.generation = if self.generation == u64::MAX {
                        0
                    } else {
                        self.generation + 1
                    };
                },
                None => {},
            },
            _ => {},
        }
        None
    }

    /// The list state after the adapter delivers a search outcome: a stale
    /// or unexpected outcome changes nothing; a current one clears the
    /// outstanding slot and, on success, installs the videos.
    pub open spec fn spec_outcome_state(
        s: SearchResultV,
        generation: u64,
        outcome: SearchOutcomeV,
    ) -> SearchResultV {
        if !s.pending || generation != s.generation {
            s
        } else {
            match outcome {
                SearchOutcomeV::Success(vs) => SearchResultV {
                    pending: false,
                    videos: Some(vs),
                    ..s
                },
                SearchOutcomeV::Failure(_) => SearchResultV { pending: false, ..s },
                SearchOutcomeV::Closed => SearchResultV { pending: false, ..s },
            }
        }
    }

    /// The action a delivered outcome emits: failures and abandoned tasks
    /// surface as an error; success and stale outcomes emit nothing.
    pub open spec fn spec_outcome_out(
        s: SearchResultV,
        generation: u64,
        outcome: SearchOutcomeV,
    ) -> Option<ActionV> {
        if !s.pending || generation != s.generation {
            None
        } else {
            match outcome {
                SearchOutcomeV::Success(_) => None,
                SearchOutcomeV::Failure(m) => Some(
                    ActionV::Error("youtube search failed: "@ + m),
                ),
                SearchOutcomeV::Closed => Some(ActionV::Error("youtube search channel closed"@)),
            }
        }
    }

    /// Take delivery of the outcome of the search spawned under the given
    /// generation.
    pub fn deliver_search_outcome(&mut self, generation: u64, outcome: SearchOutcome) -> (r:
        Option<Action>)
        ensures
            final(self)@ == Self::spec_outcome_state(old(self)@, generation, outcome@),
            opt_action_view(r) == Self::spec_outcome_out(old(self)@, generation, outcome@),
    {
        if !self.pending || generation != self.generation {
            return None;
        }
        self.pending = false;
        match outcome {
            SearchOutcome::Success(videos) => {
                self.search_result_videos = Some(videos);
                None
            },
            SearchOutcome::Failure(message) => Some(
                Action::Error("youtube search failed: ".to_owned().concat(message.as_str())),
            ),
            SearchOutcome::Closed => Some(
                Action::Error("youtube search channel closed".to_owned()),
            ),
        }
    }
}

/// The view of an optionally returned video.
pub open spec fn opt_video_view(r: Option<YoutubeVideo>) -> Option<VideoV> {
    match r {
        Some(v) => Some(v@),
        None => None,
    }
}

/// Mathematical image of the details panel's state.
#[verifier::ext_equal]
pub struct DetailsV {
    pub selected: Option<VideoV>,
}

/// The panel showing the details of the selected search result.
pub struct SearchResultDetails {
    pub selected_search_result: Option<YoutubeVideo>,
}

impl View for SearchResultDetails {
    type V = DetailsV;

    open spec fn view(&self) -> DetailsV {
        DetailsV { selected: opt_video_view(self.selected_search_result) }
    }
}

impl SearchResultDetails {
    pub fn new() -> (c: SearchResultDetails)
        ensures
            c@ == (DetailsV { selected: None }),
    {
        SearchResultDetails { selected_search_result: None }
    }

    pub fn scene(&self) -> (s: Scenes)
        ensures
            s == Scenes::Download(DownloadLayouts::SearchResultDetails),
    {
        Scenes::Download(DownloadLayouts::SearchResultDetails)
    }

    pub fn mode(&self) -> (m: Mode)
        ensures
            m == Mode::Download,
    {
        Mode::Download
    }

    /// The state after reacting to an action: the panel shows whatever the
    /// result list last announced.
    pub open spec fn spec_update(s: DetailsV, a: ActionV) -> DetailsV {
        match a {
            ActionV::DownloadShowSearchDetails(v) => DetailsV { selected: v },
            _ => s,
        }
    }

    /// React to a forwarded action; emits nothing.
    pub fn update(&mut self, action: &Action) -> (r: Option<Action>)
        ensures
            final(self)@ == Self::spec_update(old(self)@, action@),
            r is None,
    {
        match action {
            Action::DownloadShowSearchDetails(v) => {
                self.selected_search_result = v.clone();
            },
            _ => {},
        }
        None
    }

    /// The lines the panel displays for the selected video, each optional
    /// field replaced by `Unknown` when missing; no lines without a
    /// selection.
    pub fn detail_lines(&self) -> (r: Vec<String>)
        ensures
            match self@.selected {
                Some(v) => r@.len() == 5 && r@[0]@ == "Id: "@ + v.id && r@[1]@ == "Title: "@
                    + or_unknown(v.title) && r@[2]@ == "Channel: "@ + or_unknown(v.channel)
                    && r@[3]@ == "Artist: "@ + or_unknown(v.artist) && r@[4]@ == "Album: "@
                    + or_unknown(v.album),
                None => r@.len() == 0,
            },
    {
        let mut lines: Vec<String> = Vec::new();
        match &self.selected_search_result {
            Some(video) => {
                lines.push("Id: ".to_owned().concat(video.id.as_str()));
                lines.push("Title: ".to_owned().concat(opt_str(&video.title)));
                lines.push("Channel: ".to_owned().concat(opt_str(&video.channel)));
                lines.push("Artist: ".to_owned().concat(opt_str(&video.artist)));
                lines.push("Album: ".to_owned().concat(opt_str(&video.album)));
            },
            None => {},
        }
        lines
    }
}

/// The string a missing optional field is drawn as.
fn opt_str(s: &Option<String>) -> (r: &str)
    ensures
        r@ == or_unknown(opt_view(*s)),
{
    match s {
        Some(v) => v.as_str(),
        None => "Unknown",
    }
}

/// The title a video is listed under.
pub fn display_title(v: &YoutubeVideo) -> (r: &str)
    ensures
        r@ == or_unknown(v@.title),
{
    match &v.title {
        Some(t) => t.as_str(),
        None => "Unknown",
    }
}

} // verus!
