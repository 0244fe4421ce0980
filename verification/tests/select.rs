use wallpaper_manager::config::full_config::FullConfig;
use wallpaper_manager::config::{ConfigOffset, ConfigResolution};
use wallpaper_manager::path::stem;
use wallpaper_manager::policy::thumbnail_key;
use wallpaper_manager::select::{
    find_wallpaper_path, select_wallpaper, selected_path, SelectError, Selected,
};

fn list(names: &[&str]) -> Vec<String> {
    names.iter().map(|name| name.to_string()).collect()
}

fn config() -> FullConfig {
    FullConfig {
        socket_path: None,
        cache_dir: "/c".to_string(),
        resolution: ConfigResolution { width: 1920, height: 1080 },
        offset: ConfigOffset { x: 0, y: 0 },
        wallpapers_dir: "/w".to_string(),
        thumbnails_cache_dir: "/c/wallpapers-thumbnail".to_string(),
        wallpapers_rescaled_dir: "/c/wallpapers-rescaled".to_string(),
    }
}

#[test]
fn the_rescaled_copy_comes_first() {
    let rescaled = list(&["a.mp4", "b.mp4"]);
    let wallpapers = list(&["a.mp4", "b.mp4", "c.mp4"]);
    assert_eq!(
        select_wallpaper("/c/wallpapers-thumbnail/b.jpg", &rescaled, &wallpapers),
        Ok(Selected::Rescaled("b.mp4".to_string()))
    );
}

#[test]
fn the_wallpaper_itself_where_no_copy_exists() {
    let rescaled = list(&["a.mp4", "b.mp4"]);
    let wallpapers = list(&["a.mp4", "b.mp4", "c.mp4"]);
    assert_eq!(
        select_wallpaper("/c/wallpapers-thumbnail/c.jpg", &rescaled, &wallpapers),
        Ok(Selected::Wallpaper("c.mp4".to_string()))
    );
}

#[test]
fn a_stale_thumbnail_leads_nowhere() {
    let rescaled = list(&["a.mp4"]);
    let wallpapers = list(&["a.mp4"]);
    assert_eq!(
        select_wallpaper("/c/wallpapers-thumbnail/gone.jpg", &rescaled, &wallpapers),
        Err(SelectError::NoWallpaper)
    );
    assert_eq!(select_wallpaper("a.jpg", &vec![], &vec![]), Err(SelectError::NoWallpaper));
}

#[test]
fn a_selection_without_a_name() {
    let wallpapers = list(&["a.mp4"]);
    assert_eq!(select_wallpaper("/", &vec![], &wallpapers), Err(SelectError::NoName));
    assert_eq!(select_wallpaper("/c/..", &vec![], &wallpapers), Err(SelectError::NoName));
}

#[test]
fn the_first_entry_of_the_stem_is_found() {
    let entries = list(&["x.mp4", "a.png", "a.mp4", "a"]);
    assert_eq!(find_wallpaper_path(&entries, "a"), Some("a.png".to_string()));
    assert_eq!(find_wallpaper_path(&entries, "x"), Some("x.mp4".to_string()));
    assert_eq!(find_wallpaper_path(&entries, "a.mp4"), None);
    assert_eq!(find_wallpaper_path(&entries, "b"), None);
    assert_eq!(find_wallpaper_path(&vec![], "a"), None);
}

#[test]
fn select_error_messages() {
    assert_eq!(SelectError::NoSelection.message(), "No wallpaper selected.");
    assert_eq!(SelectError::NoName.message(), "Selected wallpaper has no name");
    assert_eq!(SelectError::NoWallpaper.message(), "Could not find corresponding wallpaper");
}

#[test]
fn the_selected_wallpaper_lies_in_its_directory() {
    let config = config();
    assert_eq!(
        selected_path(&config, &Selected::Rescaled("b.mp4".to_string())),
        "/c/wallpapers-rescaled/b.mp4"
    );
    assert_eq!(selected_path(&config, &Selected::Wallpaper("c.mp4".to_string())), "/w/c.mp4");
}

#[test]
fn the_picker_shows_thumbnails_unless_static() {
    let config = config();
    assert_eq!(config.picker_dir(false), "/c/wallpapers-thumbnail");
    assert_eq!(config.picker_dir(true), "/w");
}

#[test]
fn every_thumbnail_leads_back_to_its_wallpaper() {
    let wallpapers = list(&["clip.mp4", "b.tar.gz", ".hidden", "plain", "photo.jpg"]);
    let rescaled = list(&["b.tar.gz"]);
    for name in &wallpapers {
        let thumbnail = config().thumbnail_path(&thumbnail_key(name));
        let selected = select_wallpaper(&thumbnail, &rescaled, &wallpapers).unwrap();
        let found = match &selected {
            Selected::Rescaled(found) => found,
            Selected::Wallpaper(found) => found,
        };
        assert_eq!(stem(found), stem(name));
    }
    assert_eq!(
        select_wallpaper("/c/wallpapers-thumbnail/b.tar.jpg", &rescaled, &wallpapers),
        Ok(Selected::Rescaled("b.tar.gz".to_string()))
    );
}

#[test]
fn an_empty_pick_selects_nothing_whatever_the_directories_hold() {
    let rescaled = list(&["a.mp4", ".mp4", ""]);
    let wallpapers = list(&["a.mp4", "b.mp4"]);
    for output in ["", "\n", "\n/c/wallpapers-thumbnail/a.jpg\n"] {
        assert_eq!(select_wallpaper(output, &rescaled, &wallpapers), Err(SelectError::NoSelection));
        assert_eq!(select_wallpaper(output, &vec![], &vec![]), Err(SelectError::NoSelection));
    }
}

#[test]
fn the_first_line_of_the_picker_is_resolved() {
    let rescaled = list(&["a.mp4"]);
    let wallpapers = list(&["a.mp4", "b.mp4"]);
    assert_eq!(
        select_wallpaper("/c/wallpapers-thumbnail/b.jpg\n/c/wallpapers-thumbnail/a.jpg\n", &rescaled, &wallpapers),
        Ok(Selected::Wallpaper("b.mp4".to_string()))
    );
}
