use wallpaper_manager::config::ConfigResolution;
use wallpaper_manager::policy::{needs_rescale, needs_thumbnail, rescaled_key, thumbnail_key};

#[test]
fn the_caches_key_by_stem_and_by_name() {
    assert_eq!(thumbnail_key("clip.mp4"), "clip.jpg");
    assert_eq!(rescaled_key("clip.mp4"), "clip.mp4");
    assert_ne!(thumbnail_key("clip.mp4"), rescaled_key("clip.mp4"));
}

#[test]
fn thumbnail_keys() {
    assert_eq!(thumbnail_key("a.b.mkv"), "a.b.jpg");
    assert_eq!(thumbnail_key("noext"), "noext.jpg");
    assert_eq!(thumbnail_key(".hidden"), ".hidden.jpg");
    assert_eq!(thumbnail_key("photo.jpg"), "photo.jpg");
}

#[test]
fn rescaled_keys() {
    assert_eq!(rescaled_key("a.b.mkv"), "a.b.mkv");
    assert_eq!(rescaled_key("noext"), "noext");
}

#[test]
fn thumbnail_is_needed_when_none_exists() {
    assert!(needs_thumbnail(false));
    assert!(!needs_thumbnail(true));
}

#[test]
fn rescale_is_needed_off_target_and_absent() {
    let target = ConfigResolution { width: 1920, height: 1080 };
    let same = ConfigResolution { width: 1920, height: 1080 };
    let narrower = ConfigResolution { width: 1280, height: 1080 };
    let lower = ConfigResolution { width: 1920, height: 720 };
    assert!(!needs_rescale(same, target, false));
    assert!(!needs_rescale(same, target, true));
    assert!(needs_rescale(narrower, target, false));
    assert!(!needs_rescale(narrower, target, true));
    assert!(needs_rescale(lower, target, false));
    assert!(!needs_rescale(lower, target, true));
}
