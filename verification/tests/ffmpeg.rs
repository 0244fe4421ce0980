use wallpaper_manager::ffmpeg::{
    failure_message, finished, generate_thumbnail, get_resolution, rescale_video, resolution_probe,
    ResolutionError,
};

#[test]
fn resolution_from_the_probers_output() {
    assert_eq!(get_resolution("1920,1080\n"), Ok((1920, 1080)));
    assert_eq!(get_resolution("1280,720"), Ok((1280, 720)));
    assert_eq!(get_resolution(" 640 ,\t480 \n"), Ok((640, 480)));
    assert_eq!(get_resolution("3840,2160,extra"), Ok((3840, 2160)));
    assert_eq!(get_resolution("+1,-1"), Ok((1, -1)));
}

#[test]
fn output_without_a_height() {
    assert_eq!(get_resolution(""), Err(ResolutionError::MissingHeight));
    assert_eq!(get_resolution("1920"), Err(ResolutionError::MissingHeight));
    assert_eq!(get_resolution("1920x1080\n"), Err(ResolutionError::MissingHeight));
    assert_eq!(get_resolution("no numbers at all"), Err(ResolutionError::MissingHeight));
}

#[test]
fn output_with_a_malformed_width() {
    assert_eq!(get_resolution(",1080"), Err(ResolutionError::InvalidWidth));
    assert_eq!(get_resolution("wide,1080"), Err(ResolutionError::InvalidWidth));
    assert_eq!(get_resolution("19 20,1080"), Err(ResolutionError::InvalidWidth));
    assert_eq!(get_resolution("wide,high"), Err(ResolutionError::InvalidWidth));
    assert_eq!(get_resolution("2147483648,1"), Err(ResolutionError::InvalidWidth));
    assert_eq!(get_resolution("  ,1"), Err(ResolutionError::InvalidWidth));
}

#[test]
fn output_with_a_malformed_height() {
    assert_eq!(get_resolution("1920,"), Err(ResolutionError::InvalidHeight));
    assert_eq!(get_resolution("1920,high"), Err(ResolutionError::InvalidHeight));
    assert_eq!(get_resolution("1920,1080p"), Err(ResolutionError::InvalidHeight));
    assert_eq!(get_resolution("1920,1080\n1920,1080\n"), Err(ResolutionError::InvalidHeight));
    assert_eq!(get_resolution("1920,,1080"), Err(ResolutionError::InvalidHeight));
}

#[test]
fn resolution_error_messages() {
    assert_eq!(
        ResolutionError::MissingHeight.message(),
        "After ffprobe split, failed to get height"
    );
    assert_eq!(ResolutionError::InvalidWidth.message(), "Failed to parse width string");
    assert_eq!(ResolutionError::InvalidHeight.message(), "Failed to parse height string");
}

#[test]
fn the_prober_is_asked_for_width_and_height() {
    let command = resolution_probe("/w/clip.mp4");
    assert_eq!(command.program, "ffprobe");
    assert_eq!(
        command.args,
        vec![
            "-v",
            "error",
            "-select_streams",
            "v:0",
            "-show_entries",
            "stream=width,height",
            "-of",
            "csv=p=0",
            "/w/clip.mp4",
        ]
    );
}

#[test]
fn the_transcoder_rescales() {
    let command = rescale_video("/w/clip.mp4", 1920, 1080, "/c/wallpapers-rescaled/clip.mp4");
    assert_eq!(command.program, "ffmpeg");
    assert_eq!(
        command.args,
        vec![
            "-hide_banner",
            "-loglevel",
            "error",
            "-i",
            "/w/clip.mp4",
            "-vf",
            "scale=1920:1080",
            "/c/wallpapers-rescaled/clip.mp4",
        ]
    );
    assert_eq!(rescale_video("a", -1, 720, "b").args[6], "scale=-1:720");
}

#[test]
fn the_transcoder_generates_thumbnails() {
    let command = generate_thumbnail("/w/clip.mp4", "/c/wallpapers-thumbnail/clip.jpg");
    assert_eq!(command.program, "ffmpeg");
    assert_eq!(
        command.args,
        vec![
            "-hide_banner",
            "-loglevel",
            "error",
            "-i",
            "/w/clip.mp4",
            "-ss",
            "00:00:00.000",
            "-vframes",
            "1",
            "-vf",
            "scale=520:-1",
            "/c/wallpapers-thumbnail/clip.jpg",
        ]
    );
}

#[test]
fn a_tool_that_cannot_be_waited_for() {
    assert_eq!(failure_message("ffmpeg"), "ffmpeg failed");
    assert_eq!(failure_message("ffprobe"), "ffprobe failed");
}

#[test]
fn what_the_prober_prints_is_read_back() {
    let values = [0, 1, 9, 10, 640, 720, 1080, 1920, 3840, -1, i32::MAX, i32::MIN];
    for width in values {
        for height in values {
            assert_eq!(get_resolution(&format!("{},{}\n", width, height)), Ok((width, height)));
        }
    }
}

#[test]
fn a_run_that_ends_in_failure_is_an_error() {
    assert_eq!(finished("ffmpeg", true), Ok(()));
    assert_eq!(finished("ffmpeg", false), Err("ffmpeg failed".to_string()));
    assert_eq!(finished("ffprobe", false), Err("ffprobe failed".to_string()));
}
