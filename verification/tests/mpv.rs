use wallpaper_manager::config::{ConfigOffset, ConfigResolution};
use wallpaper_manager::json::escape;
use wallpaper_manager::mpv::{geometry, load_file, run};

#[test]
fn geometry_has_signed_offsets() {
    let full_hd = ConfigResolution { width: 1920, height: 1080 };
    assert_eq!(geometry(full_hd, ConfigOffset { x: 0, y: 0 }), "1920x1080+0+0");
    assert_eq!(geometry(full_hd, ConfigOffset { x: 1920, y: -20 }), "1920x1080+1920-20");
    assert_eq!(
        geometry(ConfigResolution { width: 800, height: 600 }, ConfigOffset { x: -5, y: 7 }),
        "800x600-5+7"
    );
}

#[test]
fn the_daemon_is_a_wrapped_player() {
    let command = run(
        "/tmp/wallpaper-mpv-socket",
        ConfigResolution { width: 1920, height: 1080 },
        ConfigOffset { x: 10, y: -10 },
    );
    assert_eq!(command.program, "xwinwrap");
    assert_eq!(
        command.args,
        vec![
            "-ov",
            "-b",
            "-fs",
            "-ni",
            "-un",
            "-g",
            "1920x1080+10-10",
            "--",
            "mpv",
            "-wid",
            "WID",
            "--idle=",
            "--no-osc",
            "--no-osd-bar",
            "--loop-file",
            "--player-operation-mode=cplayer",
            "--no-audio",
            "--panscan=1.0",
            "--no-input-default-bindings",
            "--input-ipc-server=/tmp/wallpaper-mpv-socket",
        ]
    );
}

#[test]
fn loadfile_is_one_json_line() {
    assert_eq!(
        load_file("/w/clip.mp4"),
        "{\"command\": [\"loadfile\", \"/w/clip.mp4\"]}\n"
    );
    let payload = load_file("/c/wallpapers-rescaled/b.mp4");
    assert!(payload.ends_with('\n'));
    assert_eq!(payload.matches('\n').count(), 1);
    assert!(payload.contains("\"/c/wallpapers-rescaled/b.mp4\""));
}

#[test]
fn loadfile_escapes_what_json_cannot_hold() {
    assert_eq!(
        load_file("/w/my \"best\".mp4"),
        "{\"command\": [\"loadfile\", \"/w/my \\\"best\\\".mp4\"]}\n"
    );
    assert_eq!(
        load_file("C:\\w\\a.mp4"),
        "{\"command\": [\"loadfile\", \"C:\\\\w\\\\a.mp4\"]}\n"
    );
    assert_eq!(
        load_file("/w/two\nlines\t.mp4"),
        "{\"command\": [\"loadfile\", \"/w/two\\u000alines\\u0009.mp4\"]}\n"
    );
    assert_eq!(
        load_file("/w/\u{1}\u{1f}é\u{7f}.mp4"),
        "{\"command\": [\"loadfile\", \"/w/\\u0001\\u001fé\u{7f}.mp4\"]}\n"
    );
}

#[test]
fn loadfile_is_one_line_whatever_the_path() {
    for path in ["", "\n", "a\nb\n", "\r\n", "\"\n\\"] {
        let payload = load_file(path);
        assert_eq!(payload.matches('\n').count(), 1, "loading {:?}", path);
        assert!(payload.ends_with("\"]}\n"));
        assert!(payload.chars().all(|c| c == '\n' || c >= ' '));
    }
}

#[test]
fn escaping() {
    assert_eq!(escape("plain/path.mp4"), "plain/path.mp4");
    assert_eq!(escape("\""), "\\\"");
    assert_eq!(escape("\\"), "\\\\");
    assert_eq!(escape("\u{0}"), "\\u0000");
    assert_eq!(escape("\u{1b}[0m"), "\\u001b[0m");
    assert_eq!(escape(" ~é\u{10ffff}"), " ~é\u{10ffff}");
    assert_eq!(escape(""), "");
}
