use wallpaper_manager::sxiv::{ask_user_input, ask_user_input_single, PickerError};

#[test]
fn empty_selection_is_an_error() {
    assert_eq!(ask_user_input_single(""), Err(PickerError::NoSelection));
    assert_eq!(ask_user_input_single("\n"), Err(PickerError::NoSelection));
    assert_eq!(ask_user_input_single("\n/c/wallpapers-thumbnail/a.jpg\n"), Err(PickerError::NoSelection));
}

#[test]
fn the_first_line_is_the_selection() {
    assert_eq!(
        ask_user_input_single("/c/wallpapers-thumbnail/a.jpg\n"),
        Ok("/c/wallpapers-thumbnail/a.jpg".to_string())
    );
    assert_eq!(ask_user_input_single("a.jpg"), Ok("a.jpg".to_string()));
    assert_eq!(ask_user_input_single("a.jpg\nb.jpg\nc.jpg\n"), Ok("a.jpg".to_string()));
    assert_eq!(ask_user_input_single(" \n"), Ok(" ".to_string()));
    assert_eq!(ask_user_input_single("été.jpg\nb"), Ok("été.jpg".to_string()));
}

#[test]
fn picker_error_messages() {
    assert_eq!(PickerError::NoSelection.message(), "No wallpaper selected.");
    assert_eq!(PickerError::ExecutionFailed.message(), "Failed to execute sxiv");
    assert_eq!(PickerError::InvalidOutput.message(), "sxiv output is not valid utf8");
}

#[test]
fn the_picker_shows_thumbnails_of_a_directory() {
    let command = ask_user_input("/c/wallpapers-thumbnail");
    assert_eq!(command.program, "sxiv");
    assert_eq!(command.args, vec!["-t", "-o", "/c/wallpapers-thumbnail"]);
}
