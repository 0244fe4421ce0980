use wallpaper_manager::config::full_config::FullConfig;
use wallpaper_manager::config::{ConfigOffset, ConfigResolution};
use wallpaper_manager::reconcile::{Action, Event, ReconcileError};
use wallpaper_manager::report::{announcement, error_message, outcome};

const FULL_HD: ConfigResolution = ConfigResolution { width: 1920, height: 1080 };
const HD: ConfigResolution = ConfigResolution { width: 1280, height: 720 };

fn config() -> FullConfig {
    FullConfig {
        socket_path: None,
        cache_dir: "/c".to_string(),
        resolution: FULL_HD,
        offset: ConfigOffset { x: 0, y: 0 },
        wallpapers_dir: "/w".to_string(),
        thumbnails_cache_dir: "/c/wallpapers-thumbnail".to_string(),
        wallpapers_rescaled_dir: "/c/wallpapers-rescaled".to_string(),
    }
}

fn text(s: &str) -> String {
    s.to_string()
}

#[test]
fn removal_of_a_stale_thumbnail_is_announced() {
    assert_eq!(
        announcement(&Action::RemoveThumbnail { key: text("stale.jpg") }, &config()),
        Some(text(
            "Thumbnail named /c/wallpapers-thumbnail/stale.jpg has no wallpaper. Removing it."
        ))
    );
}

#[test]
fn removal_of_a_stale_copy_is_announced() {
    assert_eq!(
        announcement(&Action::RemoveRescaled { key: text("gone.mp4") }, &config()),
        Some(text(
            "Rescaled wallpaper named /c/wallpapers-rescaled/gone.mp4 has no wallpaper. Removing it."
        ))
    );
}

#[test]
fn generation_is_announced() {
    assert_eq!(
        announcement(
            &Action::GenerateThumbnail { source: text("a.mp4"), key: text("a.jpg") },
            &config()
        ),
        Some(text("Missing thumbnail for file a.mp4. Generating..."))
    );
    assert_eq!(
        announcement(
            &Action::Rescale { source: text("b.mp4"), native: HD, target: FULL_HD, key: text("b.mp4") },
            &config()
        ),
        Some(text(
            "Resolution 1280x720 does not match for b.mp4. Generating rescaled version..."
        ))
    );
}

#[test]
fn other_actions_are_not_announced() {
    let config = config();
    assert_eq!(announcement(&Action::ListSource, &config), None);
    assert_eq!(announcement(&Action::ListThumbnails, &config), None);
    assert_eq!(announcement(&Action::ListRescaled, &config), None);
    assert_eq!(announcement(&Action::Finish, &config), None);
    assert_eq!(announcement(&Action::Probe { source: text("a.mp4") }, &config), None);
    assert_eq!(
        announcement(&Action::CheckThumbnail { source: text("a.mp4"), key: text("a.jpg") }, &config),
        None
    );
    assert_eq!(
        announcement(&Action::CheckRescaled { source: text("a.mp4"), key: text("a.mp4") }, &config),
        None
    );
}

#[test]
fn outcomes() {
    let check = Action::CheckThumbnail { source: text("a.mp4"), key: text("a.jpg") };
    assert_eq!(
        outcome(&check, &Event::Exists { exists: true }),
        Some(text("Thumbnail for file a.mp4 already exists"))
    );
    assert_eq!(outcome(&check, &Event::Exists { exists: false }), None);
    let rescale =
        Action::Rescale { source: text("b.mp4"), native: HD, target: FULL_HD, key: text("b.mp4") };
    assert_eq!(outcome(&rescale, &Event::Done), Some(text("Rescaled version generated!")));
    assert_eq!(outcome(&rescale, &Event::Failed { reason: text("x") }), None);
    assert_eq!(
        outcome(
            &Action::CheckRescaled { source: text("a.mp4"), key: text("a.mp4") },
            &Event::Exists { exists: true }
        ),
        None
    );
    assert_eq!(outcome(&Action::ListSource, &Event::Listed { entries: vec![] }), None);
}

#[test]
fn error_messages() {
    assert_eq!(
        error_message(&ReconcileError::SourceDirUnreadable),
        "Could not read wallpapers directory."
    );
    assert_eq!(error_message(&ReconcileError::CacheDirUnreadable), "Could not read cache directory");
    assert_eq!(
        error_message(&ReconcileError::TranscodeFailed(text("ffmpeg binary not found"))),
        "ffmpeg binary not found"
    );
    assert_eq!(error_message(&ReconcileError::ProbeFailed(text("ffprobe failed"))), "ffprobe failed");
    assert_eq!(
        error_message(&ReconcileError::DeletionFailed(
            text("/c/wallpapers-thumbnail/stale.jpg"),
            text("read-only")
        )),
        "Failed to remove cached item /c/wallpapers-thumbnail/stale.jpg: read-only"
    );
    assert_eq!(
        error_message(&ReconcileError::NoIdentity(text(".."))),
        "Could not extract file stem of .."
    );
    assert_eq!(error_message(&ReconcileError::OutOfTurn), "The event does not answer the action");
}
