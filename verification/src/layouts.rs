//! Scene identifiers, screen rectangles, and the layout manager that maps
//! every scene to the region of the screen it may draw into.
//!
//! The screen is partitioned vertically into a one-row title strip, a
//! flexible middle region and a three-row input strip. The middle region is
//! shared by the top-level areas; the download area further splits it into a
//! three-row search bar over two side-by-side panels of equal width.

use vstd::prelude::*;

use crate::mode::Mode;

verus! {

/// Enum of screens or individual elements.
#[derive(Clone, Copy, Debug, PartialEq, Eq, Structural)]
pub enum Scenes {
    Home(HomeLayouts),
    Download(DownloadLayouts),
    Manager(ManagerLayouts),
    InputBar,
    TitleBar,
}

impl Default for Scenes {
    fn default() -> (s: Self)
        ensures
            s == Scenes::Home(HomeLayouts::Intro),
    {
        Scenes::Home(HomeLayouts::Intro)
    }
}

#[derive(Clone, Copy, Debug, PartialEq, Eq, Structural)]
pub enum HomeLayouts {
    Intro,
}

#[derive(Clone, Copy, Debug, PartialEq, Eq, Structural)]
pub enum DownloadLayouts {
    SearchBar,
    SearchResult,
    SearchResultDetails,
}

#[derive(Clone, Copy, Debug, PartialEq, Eq, Structural)]
pub enum ManagerLayouts {
    SongList,
}

/// Shape of the screen, derived from its aspect ratio.
#[derive(Clone, Copy, Debug, PartialEq, Eq, Structural)]
pub enum Orientation {
    Landscape,
    Portrait,
}

/// A screen region in terminal cells.
#[derive(Clone, Copy, Debug, PartialEq, Eq, Structural)]
pub struct Rect {
    pub x: u16,
    pub y: u16,
    pub width: u16,
    pub height: u16,
}

impl Rect {
    /// The region's far edges stay within the coordinate space.
    pub open spec fn wf(self) -> bool {
        self.x + self.width <= u16::MAX && self.y + self.height <= u16::MAX
    }

    pub fn new(x: u16, y: u16, width: u16, height: u16) -> (r: Rect)
        requires
            x + width <= u16::MAX,
            y + height <= u16::MAX,
        ensures
            r == (Rect { x, y, width, height }),
    {
        Rect { x, y, width, height }
    }
}

/// The currently active UI context: a top-level area plus the specific scene
/// inside it.
#[derive(Clone, Copy, Debug, PartialEq, Eq, Structural)]
pub struct Focus {
    pub mode: Mode,
    pub scene: Scenes,
}

/// Height of the title strip for a screen of height `h`.
pub open spec fn title_strip_h(h: int) -> int {
    if h >= 1 {
        1
    } else {
        h
    }
}

/// Height of the input strip for a screen of height `h`: three rows when
/// they fit below the title strip, the remainder otherwise.
pub open spec fn input_strip_h(h: int) -> int {
    let rest = h - title_strip_h(h);
    if rest >= 3 {
        3
    } else {
        rest
    }
}

/// Height of the flexible middle region for a screen of height `h`.
pub open spec fn middle_h(h: int) -> int {
    h - title_strip_h(h) - input_strip_h(h)
}

/// Height of the search bar inside a download region of height `h`.
pub open spec fn search_bar_h(h: int) -> int {
    if h >= 3 {
        3
    } else {
        h
    }
}

/// Manages all predefined layouts in the application. Components never
/// compute their own geometry: they request the rectangle assigned to their
/// scene, and a scene the rebuild never populates fails the lookup
/// explicitly.
pub struct LayoutManager {
    pub screen: Rect,
    pub orientation: Orientation,
    pub title_bar: Option<Rect>,
    pub input_bar: Option<Rect>,
    pub intro: Option<Rect>,
    pub search_bar: Option<Rect>,
    pub search_result: Option<Rect>,
    pub search_result_details: Option<Rect>,
}

impl LayoutManager {
    /// The rectangle currently assigned to a scene, if any. The song-list
    /// scene is never populated by the rebuild.
    pub open spec fn spec_layout(self, scene: Scenes) -> Option<Rect> {
        match scene {
            Scenes::TitleBar => self.title_bar,
            Scenes::InputBar => self.input_bar,
            Scenes::Home(HomeLayouts::Intro) => self.intro,
            Scenes::Download(DownloadLayouts::SearchBar) => self.search_bar,
            Scenes::Download(DownloadLayouts::SearchResult) => self.search_result,
            Scenes::Download(DownloadLayouts::SearchResultDetails) => self.search_result_details,
            Scenes::Manager(ManagerLayouts::SongList) => None,
        }
    }

    pub open spec fn spec_screen(self) -> Rect {
        self.screen
    }

    pub open spec fn spec_orientation(self) -> Orientation {
        self.orientation
    }

    /// The manager state produced by a full rebuild for the given screen.
    pub open spec fn built(screen: Rect) -> LayoutManager {
        let th = title_strip_h(screen.height as int);
        let ih = input_strip_h(screen.height as int);
        let mh = middle_h(screen.height as int);
        let middle_y = screen.y + th;
        let sbh = search_bar_h(mh);
        let panel_y = middle_y + sbh;
        let panel_h = mh - sbh;
        let left_w = screen.width as int / 2;
        let right_w = screen.width as int - left_w;
        LayoutManager {
            screen,
            orientation: if screen.height > screen.width {
                Orientation::Portrait
            } else {
                Orientation::Landscape
            },
            title_bar: Some(
                (Rect { x: screen.x, y: screen.y, width: screen.width, height: th as u16 }),
            ),
            input_bar: Some(
                (Rect {
                    x: screen.x,
                    y: (middle_y + mh) as u16,
                    width: screen.width,
                    height: ih as u16,
                }),
            ),
            intro: Some(
                (Rect { x: screen.x, y: middle_y as u16, width: screen.width, height: mh as u16 }),
            ),
            search_bar: Some(
                (Rect { x: screen.x, y: middle_y as u16, width: screen.width, height: sbh as u16 }),
            ),
            search_result: Some(
                (Rect {
                    x: screen.x,
                    y: panel_y as u16,
                    width: left_w as u16,
                    height: panel_h as u16,
                }),
            ),
            search_result_details: Some(
                (Rect {
                    x: (screen.x + left_w) as u16,
                    y: panel_y as u16,
                    width: right_w as u16,
                    height: panel_h as u16,
                }),
            ),
        }
    }

    /// A fresh manager with no layouts populated; lookups fail until the
    /// first rebuild.
    pub fn new() -> (m: LayoutManager)
        ensures
            m == (LayoutManager {
                screen: Rect { x: 0u16, y: 0u16, width: 0u16, height: 0u16 },
                orientation: Orientation::Landscape,
                title_bar: None,
                input_bar: None,
                intro: None,
                search_bar: None,
                search_result: None,
                search_result_details: None,
            }),
            forall|s: Scenes| m.spec_layout(s) is None,
    {
        LayoutManager {
            screen: Rect { x: 0, y: 0, width: 0, height: 0 },
            orientation: Orientation::Landscape,
            title_bar: None,
            input_bar: None,
            intro: None,
            search_bar: None,
            search_result: None,
            search_result_details: None,
        }
    }

    /// First rebuild at startup; identical to `update`.
    pub fn init(&mut self, screen: Rect)
        requires
            screen.wf(),
        ensures
            *final(self) == LayoutManager::built(screen),
    {
        self.update(screen);
    }

    /// On terminal resize, record the new screen size and rebuild every
    /// layout from it. The result depends on the screen alone.
    pub fn update(&mut self, screen: Rect)
        requires
            screen.wf(),
        ensures
            *final(self) == LayoutManager::built(screen),
    {
        self.screen = screen;
        self.orientation = if screen.height > screen.width {
            Orientation::Portrait
        } else {
            Orientation::Landscape
        };
        self.build_layouts();
    }

    /// The rectangle a component with the given scene may draw into, or an
    /// explicit error when the rebuild assigned that scene nothing.
    pub fn get_component_layout(&self, layout_key: Scenes) -> (r: Result<Rect, LayoutError>)
        ensures
            match r {
                Ok(rect) => self.spec_layout(layout_key) == Some(rect),
                Err(e) => self.spec_layout(layout_key) is None && e == (LayoutError::UnknownScene(
                    layout_key,
                )),
            },
    {
        let entry = match layout_key {
            Scenes::TitleBar => self.title_bar,
            Scenes::InputBar => self.input_bar,
            Scenes::Home(HomeLayouts::Intro) => self.intro,
            Scenes::Download(DownloadLayouts::SearchBar) => self.search_bar,
            Scenes::Download(DownloadLayouts::SearchResult) => self.search_result,
            Scenes::Download(DownloadLayouts::SearchResultDetails) => self.search_result_details,
            Scenes::Manager(ManagerLayouts::SongList) => None,
        };
        match entry {
            Some(rect) => Ok(rect),
            None => Err(LayoutError::UnknownScene(layout_key)),
        }
    }

    /// Partition the screen into title strip, middle region and input strip,
    /// then hand the middle region to every top-level area.
    fn build_layouts(&mut self)
        requires
            old(self).screen.wf(),
        ensures
            *final(self) == LayoutManager::built(old(self).screen),
            final(self).screen == old(self).screen,
            final(self).orientation == LayoutManager::built(old(self).screen).orientation,
    {
        self.orientation = if self.screen.height > self.screen.width {
            Orientation::Portrait
        } else {
            Orientation::Landscape
        };
        let screen = self.screen;
        let th: u16 = if screen.height >= 1 {
            1
        } else {
            screen.height
        };
        let after_title: u16 = screen.height - th;
        let ih: u16 = if after_title >= 3 {
            3
        } else {
            after_title
        };
        let mh: u16 = after_title - ih;
        let middle_y: u16 = screen.y + th;
        self.title_bar = Some(Rect { x: screen.x, y: screen.y, width: screen.width, height: th });
        self.input_bar = Some(
            Rect { x: screen.x, y: middle_y + mh, width: screen.width, height: ih },
        );
        let middle = Rect { x: screen.x, y: middle_y, width: screen.width, height: mh };
        // Area: Home
        self.intro = Some(middle);
        self.build_download_layout(middle);
    }

    /// Inside the download area: a three-row search bar on top, and below it
    /// two panels splitting the width evenly.
    fn build_download_layout(&mut self, area: Rect)
        requires
            area.wf(),
        ensures
            final(self).search_bar == LayoutManager::built_search_bar(area),
            final(self).search_result == LayoutManager::built_search_result(area),
            final(self).search_result_details == LayoutManager::built_search_result_details(area),
            final(self).screen == old(self).screen,
            final(self).orientation == old(self).orientation,
            final(self).title_bar == old(self).title_bar,
            final(self).input_bar == old(self).input_bar,
            final(self).intro == old(self).intro,
    {
        let sbh: u16 = if area.height >= 3 {
            3
        } else {
            area.height
        };
        let panel_y: u16 = area.y + sbh;
        let panel_h: u16 = area.height - sbh;
        let left_w: u16 = area.width / 2;
        let right_w: u16 = area.width - left_w;
        self.search_bar = Some(Rect { x: area.x, y: area.y, width: area.width, height: sbh });
        self.search_result = Some(
            Rect { x: area.x, y: panel_y, width: left_w, height: panel_h },
        );
        self.search_result_details = Some(
            Rect { x: area.x + left_w, y: panel_y, width: right_w, height: panel_h },
        );
    }

    /// The search-bar rectangle the rebuild derives from a download area.
    pub open spec fn built_search_bar(area: Rect) -> Option<Rect> {
        Some(
            (Rect {
                x: area.x,
                y: area.y,
                width: area.width,
                height: search_bar_h(area.height as int) as u16,
            }),
        )
    }

    /// The left results panel the rebuild derives from a download area.
    pub open spec fn built_search_result(area: Rect) -> Option<Rect> {
        let sbh = search_bar_h(area.height as int);
        Some(
            (Rect {
                x: area.x,
                y: (area.y + sbh) as u16,
                width: (area.width as int / 2) as u16,
                height: (area.height - sbh) as u16,
            }),
        )
    }

    /// The right details panel the rebuild derives from a download area.
    pub open spec fn built_search_result_details(area: Rect) -> Option<Rect> {
        let sbh = search_bar_h(area.height as int);
        let left_w = area.width as int / 2;
        Some(
            (Rect {
                x: (area.x + left_w) as u16,
                y: (area.y + sbh) as u16,
                width: (area.width - left_w) as u16,
                height: (area.height - sbh) as u16,
            }),
        )
    }
}

/// Error of a layout lookup for a scene the rebuild never populates.
#[derive(Clone, Copy, Debug, PartialEq, Eq, Structural)]
pub enum LayoutError {
    UnknownScene(Scenes),
}

/// Rebuilding the layout a second time for the same screen leaves the
/// manager exactly as the first rebuild did: the scene map after both calls
/// is identical.
pub proof fn lemma_update_idempotent(first: LayoutManager, second: LayoutManager, screen: Rect)
    requires
        first == LayoutManager::built(screen),
        second == LayoutManager::built(screen),
    ensures
        second == first,
        forall|s: Scenes| second.spec_layout(s) == first.spec_layout(s),
{
}

} // verus!
