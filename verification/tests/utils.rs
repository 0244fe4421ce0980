use std::io::{Error, ErrorKind};
use wallpaper_manager::command::Command;
use wallpaper_manager::number::{decimal, parse_i32, signed_decimal};
use wallpaper_manager::utils::{
    command_failure_message, make_error_message_after_command_call, trim, trim_string, IoFailure,
};

#[test]
fn trim_string_removes_blanks_at_both_ends() {
    let mut s = "  \t1920 \n".to_string();
    trim_string(&mut s);
    assert_eq!(s, "1920");
    let mut s = "a b\tc".to_string();
    trim_string(&mut s);
    assert_eq!(s, "a b\tc");
    let mut s = "\n\nx".to_string();
    trim_string(&mut s);
    assert_eq!(s, "x");
    let mut s = "x\t\t".to_string();
    trim_string(&mut s);
    assert_eq!(s, "x");
}

#[test]
fn trim_string_hands_back_its_argument() {
    let mut s = " 1080\n".to_string();
    let r = trim_string(&mut s);
    assert_eq!(r.as_str(), "1080");
    r.push('p');
    assert_eq!(s, "1080p");
}

#[test]
fn trim_string_leaves_blank_text_alone() {
    let mut s = String::new();
    trim_string(&mut s);
    assert_eq!(s, "");
    let mut s = " \n\t ".to_string();
    trim_string(&mut s);
    assert_eq!(s, " \n\t ");
}

#[test]
fn trim_string_keeps_other_white_space() {
    let mut s = "\r\n x \r\n".to_string();
    trim_string(&mut s);
    assert_eq!(s, "\r\n x \r");
    let mut s = " é ".to_string();
    trim_string(&mut s);
    assert_eq!(s, "é");
}

#[test]
fn trim_gives_what_trim_string_leaves() {
    for text in ["", " ", "a", " a", "a ", "\t a b \n", "\n", " \u{a0}x "] {
        let mut s = text.to_string();
        trim_string(&mut s);
        assert_eq!(trim(text), s);
    }
}

#[test]
fn message_for_a_binary_that_is_not_found() {
    let err = Error::new(ErrorKind::NotFound, "no such file");
    assert_eq!(make_error_message_after_command_call("ffmpeg", err), "ffmpeg binary not found");
    assert_eq!(command_failure_message("ffprobe", IoFailure::NotFound), "ffprobe binary not found");
}

#[test]
fn message_for_a_command_that_does_not_start() {
    let err = Error::new(ErrorKind::PermissionDenied, "denied");
    assert_eq!(make_error_message_after_command_call("ffmpeg", err), "Could not start ffmpeg");
    let err = Error::new(ErrorKind::Other, "odd");
    assert_eq!(make_error_message_after_command_call("sxiv", err), "Could not start sxiv");
    assert_eq!(command_failure_message("mpv", IoFailure::PermissionDenied), "Could not start mpv");
    assert_eq!(command_failure_message("mpv", IoFailure::Other), "Could not start mpv");
}

#[test]
fn decimal_agrees_with_display() {
    for n in [0, 1, 9, 10, 11, 99, 100, 520, 1080, 1920, -1, -10, -1920, i32::MAX, i32::MIN] {
        assert_eq!(decimal(n), format!("{}", n));
    }
}

#[test]
fn signed_decimal_agrees_with_signed_display() {
    for n in [0, 1, 7, 10, 1920, -1, -7, -10, -1920, i32::MAX, i32::MIN] {
        assert_eq!(signed_decimal(n), format!("{:+}", n));
    }
}

#[test]
fn parse_i32_agrees_with_parse() {
    let texts = [
        "",
        "0",
        "7",
        "1920",
        "1080",
        "+5",
        "-5",
        "-0",
        "+0",
        "+",
        "-",
        "--1",
        "+-1",
        "007",
        "0000000000000000000001",
        "2147483647",
        "2147483648",
        "-2147483648",
        "-2147483649",
        "99999999999999999999",
        "-99999999999999999999",
        " 1",
        "1 ",
        "1_000",
        "12a",
        "a12",
        "1.5",
        "٣",
        "1920\n",
        "N/A",
    ];
    for text in texts {
        assert_eq!(parse_i32(text), text.parse::<i32>().ok(), "parsing {:?}", text);
    }
}

#[test]
fn parse_i32_values() {
    assert_eq!(parse_i32("1920"), Some(1920));
    assert_eq!(parse_i32("-720"), Some(-720));
    assert_eq!(parse_i32("x"), None);
}

#[test]
fn commands_gather_their_arguments() {
    let command = Command::new("tool").arg("-a").arg("b c");
    assert_eq!(command.program, "tool");
    assert_eq!(command.args, vec!["-a", "b c"]);
    assert!(Command::new("tool").args.is_empty());
}
