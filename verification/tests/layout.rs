//! Tests of the layout manager: the fixed partition of the screen, its
//! determinism across rebuilds, and the explicit failure for a scene the
//! rebuild never populates.

use muzik_tui::layouts::{
    DownloadLayouts, HomeLayouts, LayoutError, LayoutManager, ManagerLayouts, Orientation, Rect,
    Scenes,
};

const ALL_SCENES: [Scenes; 7] = [
    Scenes::TitleBar,
    Scenes::InputBar,
    Scenes::Home(HomeLayouts::Intro),
    Scenes::Download(DownloadLayouts::SearchBar),
    Scenes::Download(DownloadLayouts::SearchResult),
    Scenes::Download(DownloadLayouts::SearchResultDetails),
    Scenes::Manager(ManagerLayouts::SongList),
];

#[test]
fn standard_screen_partition() {
    let mut lm = LayoutManager::new();
    lm.update(Rect::new(0, 0, 80, 24));

    // Title strip: the first row. Input strip: the last three rows. The
    // middle region spans the twenty rows between them.
    assert_eq!(
        lm.get_component_layout(Scenes::TitleBar).unwrap(),
        Rect { x: 0, y: 0, width: 80, height: 1 }
    );
    assert_eq!(
        lm.get_component_layout(Scenes::InputBar).unwrap(),
        Rect { x: 0, y: 21, width: 80, height: 3 }
    );
    assert_eq!(
        lm.get_component_layout(Scenes::Home(HomeLayouts::Intro)).unwrap(),
        Rect { x: 0, y: 1, width: 80, height: 20 }
    );
    // Download area: a three-row search bar over two panels of equal width.
    assert_eq!(
        lm.get_component_layout(Scenes::Download(DownloadLayouts::SearchBar)).unwrap(),
        Rect { x: 0, y: 1, width: 80, height: 3 }
    );
    assert_eq!(
        lm.get_component_layout(Scenes::Download(DownloadLayouts::SearchResult)).unwrap(),
        Rect { x: 0, y: 4, width: 40, height: 17 }
    );
    assert_eq!(
        lm.get_component_layout(Scenes::Download(DownloadLayouts::SearchResultDetails)).unwrap(),
        Rect { x: 40, y: 4, width: 40, height: 17 }
    );
}

#[test]
fn unpopulated_scene_fails_lookup() {
    let mut lm = LayoutManager::new();
    // Before the first rebuild nothing resolves.
    for scene in ALL_SCENES {
        assert!(lm.get_component_layout(scene).is_err());
    }
    lm.update(Rect::new(0, 0, 80, 24));
    // The song-list scene is never populated by the rebuild, and the error
    // names it.
    assert_eq!(
        lm.get_component_layout(Scenes::Manager(ManagerLayouts::SongList)),
        Err(LayoutError::UnknownScene(Scenes::Manager(ManagerLayouts::SongList)))
    );
}

#[test]
fn update_twice_same_screen_is_identical() {
    let mut lm = LayoutManager::new();
    let screen = Rect::new(0, 0, 120, 40);
    lm.update(screen);
    let first: Vec<_> = ALL_SCENES.iter().map(|s| lm.get_component_layout(*s)).collect();
    lm.update(screen);
    let second: Vec<_> = ALL_SCENES.iter().map(|s| lm.get_component_layout(*s)).collect();
    assert_eq!(first, second);
}

#[test]
fn tiny_screens_still_partition_fully() {
    let mut lm = LayoutManager::new();
    lm.update(Rect::new(0, 0, 5, 3));
    // One title row, the rest goes to the input strip, nothing is left for
    // the middle region.
    assert_eq!(
        lm.get_component_layout(Scenes::TitleBar).unwrap(),
        Rect { x: 0, y: 0, width: 5, height: 1 }
    );
    assert_eq!(
        lm.get_component_layout(Scenes::InputBar).unwrap(),
        Rect { x: 0, y: 1, width: 5, height: 2 }
    );
    assert_eq!(
        lm.get_component_layout(Scenes::Home(HomeLayouts::Intro)).unwrap(),
        Rect { x: 0, y: 1, width: 5, height: 0 }
    );

    lm.update(Rect::new(0, 0, 0, 0));
    assert_eq!(
        lm.get_component_layout(Scenes::TitleBar).unwrap(),
        Rect { x: 0, y: 0, width: 0, height: 0 }
    );
}

#[test]
fn orientation_follows_aspect_ratio() {
    let mut lm = LayoutManager::new();
    lm.update(Rect::new(0, 0, 80, 24));
    assert_eq!(lm.orientation, Orientation::Landscape);
    lm.update(Rect::new(0, 0, 24, 80));
    assert_eq!(lm.orientation, Orientation::Portrait);
}
