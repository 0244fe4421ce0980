use wallpaper_manager::config::full_config::FullConfig;
use wallpaper_manager::config::{ConfigOffset, ConfigResolution};
use wallpaper_manager::select::SelectError;
use wallpaper_manager::selection::{
    select_announcement, SelectAction, SelectEvent, SelectPhase, Selection, SelectionError,
};

fn config() -> FullConfig {
    FullConfig {
        socket_path: None,
        cache_dir: "/c".to_string(),
        resolution: ConfigResolution { width: 1920, height: 1080 },
        offset: ConfigOffset { x: 0, y: 0 },
        wallpapers_dir: "/w".to_string(),
        thumbnails_cache_dir: "/c/wallpapers-thumbnail".to_string(),
        wallpapers_rescaled_dir: "/c/wallpapers-rescaled".to_string(),
    }
}

fn text(s: &str) -> String {
    s.to_string()
}

fn picked(output: &str) -> SelectEvent {
    SelectEvent::Picked { output: text(output) }
}

fn listed(names: &[&str]) -> SelectEvent {
    SelectEvent::Listed { entries: names.iter().map(|name| text(name)).collect() }
}

fn refused(reason: &str) -> SelectEvent {
    SelectEvent::Failed { reason: text(reason) }
}

/// A selection that was stepped through `events` without an error.
fn stepped_selection(events: Vec<SelectEvent>) -> Selection {
    let mut selection = Selection::new(&config(), false);
    for event in events {
        selection.step(event).unwrap();
    }
    selection
}

#[test]
fn the_picker_shows_the_thumbnails() {
    let mut selection = Selection::new(&config(), false);
    assert_eq!(selection.phase(), SelectPhase::Idle);
    assert_eq!(
        selection.step(SelectEvent::Start),
        Ok(SelectAction::Pick { dir: text("/c/wallpapers-thumbnail") })
    );
    let mut selection = Selection::new(&config(), true);
    assert_eq!(selection.step(SelectEvent::Start), Ok(SelectAction::Pick { dir: text("/w") }));
}

#[test]
fn an_empty_selection_ends_the_command() {
    for output in ["", "\n", "\n/c/wallpapers-thumbnail/a.jpg\n"] {
        let mut selection = stepped_selection(vec![SelectEvent::Start]);
        assert_eq!(
            selection.step(picked(output)),
            Err(SelectionError::Unresolved(SelectError::NoSelection))
        );
        assert_eq!(selection.phase(), SelectPhase::Failed);
        assert_eq!(selection.step(listed(&["a.mp4"])), Err(SelectionError::OutOfTurn));
        assert_eq!(selection.step(SelectEvent::Done), Err(SelectionError::OutOfTurn));
        assert_eq!(selection.phase(), SelectPhase::Failed);
    }
    assert_eq!(
        SelectionError::Unresolved(SelectError::NoSelection).message(),
        "No wallpaper selected."
    );
}

#[test]
fn a_copy_in_the_rescaled_cache_is_loaded_without_further_search() {
    let mut selection = stepped_selection(vec![SelectEvent::Start]);
    assert_eq!(
        selection.step(picked("/c/wallpapers-thumbnail/b.jpg\n")),
        Ok(SelectAction::SearchRescaled {
            dir: text("/c/wallpapers-rescaled"),
            picked: text("b.jpg")
        })
    );
    assert_eq!(
        selection.step(listed(&["a.mp4", "b.mp4"])),
        Ok(SelectAction::Load {
            path: text("/c/wallpapers-rescaled/b.mp4"),
            line: text("{\"command\": [\"loadfile\", \"/c/wallpapers-rescaled/b.mp4\"]}\n"),
        })
    );
    assert_eq!(selection.step(SelectEvent::Done), Ok(SelectAction::Finish));
    assert_eq!(selection.phase(), SelectPhase::Finished);
    assert_eq!(selection.step(SelectEvent::Done), Err(SelectionError::OutOfTurn));
}

#[test]
fn the_wallpapers_are_searched_when_no_copy_exists() {
    let mut selection =
        stepped_selection(vec![SelectEvent::Start, picked("/c/wallpapers-thumbnail/c.jpg\n")]);
    assert_eq!(
        selection.step(listed(&["a.mp4", "b.mp4"])),
        Ok(SelectAction::SearchWallpapers { dir: text("/w") })
    );
    assert_eq!(
        selection.step(listed(&["a.mp4", "c.mkv"])),
        Ok(SelectAction::Load {
            path: text("/w/c.mkv"),
            line: text("{\"command\": [\"loadfile\", \"/w/c.mkv\"]}\n"),
        })
    );
}

#[test]
fn a_stale_thumbnail_ends_the_command() {
    let mut selection = stepped_selection(vec![
        SelectEvent::Start,
        picked("/c/wallpapers-thumbnail/gone.jpg\n"),
        listed(&["a.mp4"]),
    ]);
    assert_eq!(
        selection.step(listed(&["a.mp4"])),
        Err(SelectionError::Unresolved(SelectError::NoWallpaper))
    );
    assert_eq!(
        SelectionError::Unresolved(SelectError::NoWallpaper).message(),
        "Could not find corresponding wallpaper"
    );
}

#[test]
fn a_pick_without_a_name_ends_the_command() {
    let mut selection = stepped_selection(vec![SelectEvent::Start]);
    assert_eq!(
        selection.step(picked("/\n")),
        Err(SelectionError::Unresolved(SelectError::NoName))
    );
    assert_eq!(
        SelectionError::Unresolved(SelectError::NoName).message(),
        "Selected wallpaper has no name"
    );
}

#[test]
fn failures_of_the_driver_end_the_command() {
    let mut selection = stepped_selection(vec![SelectEvent::Start]);
    assert_eq!(
        selection.step(refused("Failed to execute sxiv")),
        Err(SelectionError::PickerFailed(text("Failed to execute sxiv")))
    );
    let mut selection = stepped_selection(vec![SelectEvent::Start, picked("a.jpg")]);
    assert_eq!(selection.step(refused("denied")), Err(SelectionError::SearchFailed(text("denied"))));
    let mut selection = stepped_selection(vec![SelectEvent::Start, picked("a.jpg"), listed(&[])]);
    assert_eq!(selection.step(refused("gone")), Err(SelectionError::SearchFailed(text("gone"))));
    let mut selection =
        stepped_selection(vec![SelectEvent::Start, picked("a.jpg"), listed(&["a.mp4"])]);
    assert_eq!(selection.phase(), SelectPhase::Loading);
    assert_eq!(
        selection.step(refused("no socket")),
        Err(SelectionError::LoadFailed(text("no socket")))
    );
}

#[test]
fn selection_error_messages() {
    assert_eq!(SelectionError::PickerFailed(text("x")).message(), "x");
    assert_eq!(
        SelectionError::SearchFailed(text("denied")).message(),
        "Failed to read wallpapers dir: denied"
    );
    assert_eq!(SelectionError::LoadFailed(text("y")).message(), "y");
    assert_eq!(SelectionError::OutOfTurn.message(), "The event does not answer the action");
}

#[test]
fn selection_events_out_of_turn() {
    let mut selection = Selection::new(&config(), false);
    assert_eq!(selection.step(SelectEvent::Done), Err(SelectionError::OutOfTurn));
    let mut selection = stepped_selection(vec![SelectEvent::Start]);
    assert_eq!(selection.step(listed(&[])), Err(SelectionError::OutOfTurn));
}

#[test]
fn the_pick_is_announced() {
    let search = SelectAction::SearchRescaled { dir: text("/c/wallpapers-rescaled"), picked: text("b.jpg") };
    assert_eq!(select_announcement(&search), Some(text("Selected \"b.jpg\"")));
    assert_eq!(select_announcement(&SelectAction::Pick { dir: text("/d") }), None);
    assert_eq!(select_announcement(&SelectAction::SearchWallpapers { dir: text("/w") }), None);
    assert_eq!(select_announcement(&SelectAction::Finish), None);
}

#[test]
fn a_path_with_a_quote_is_loaded_escaped() {
    let mut selection =
        stepped_selection(vec![SelectEvent::Start, picked("/c/wallpapers-thumbnail/my \"best\".jpg\n")]);
    assert_eq!(
        selection.step(listed(&["my \"best\".mp4"])),
        Ok(SelectAction::Load {
            path: text("/c/wallpapers-rescaled/my \"best\".mp4"),
            line: text(
                "{\"command\": [\"loadfile\", \"/c/wallpapers-rescaled/my \\\"best\\\".mp4\"]}\n"
            ),
        })
    );
}
