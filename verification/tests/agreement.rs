use std::path::Path;
use wallpaper_manager::ffmpeg::{get_resolution, ResolutionError};
use wallpaper_manager::number::{decimal, parse_i32, signed_decimal};
use wallpaper_manager::path::{file_name, file_stem, join};
use wallpaper_manager::sxiv::ask_user_input_single;
use wallpaper_manager::utils::{trim, trim_string};

/// Every text of at most `max` characters over `alphabet`.
fn texts(alphabet: &[char], max: usize) -> Vec<String> {
    let mut all = vec![String::new()];
    let mut last = vec![String::new()];
    for _ in 0..max {
        let mut next = Vec::new();
        for text in &last {
            for c in alphabet {
                let mut longer = text.clone();
                longer.push(*c);
                next.push(longer);
            }
        }
        all.extend(next.iter().cloned());
        last = next;
    }
    all
}

#[test]
fn file_name_agrees_with_std_on_all_short_paths() {
    for path in texts(&['a', '.', '/'], 7) {
        let expected = Path::new(&path).file_name().map(|n| n.to_string_lossy().into_owned());
        assert_eq!(file_name(&path), expected, "file name of {:?}", path);
    }
}

#[test]
fn file_stem_agrees_with_std_on_all_short_paths() {
    for path in texts(&['a', '.', '/'], 7) {
        let expected = Path::new(&path).file_stem().map(|n| n.to_string_lossy().into_owned());
        assert_eq!(file_stem(&path), expected, "file stem of {:?}", path);
    }
}

#[test]
fn join_agrees_with_std_on_all_short_paths() {
    let paths = texts(&['a', '.', '/'], 4);
    for base in &paths {
        for rel in &paths {
            let expected = Path::new(base).join(rel).to_string_lossy().into_owned();
            assert_eq!(join(base, rel), expected, "{:?} joined with {:?}", base, rel);
        }
    }
}

#[test]
fn parse_i32_agrees_with_parse_on_all_short_texts() {
    for text in texts(&['+', '-', '0', '1', '9', ' ', 'x'], 5) {
        assert_eq!(parse_i32(&text), text.parse::<i32>().ok(), "parsing {:?}", text);
    }
}

#[test]
fn parse_i32_agrees_with_parse_near_the_bounds() {
    for n in [i32::MAX as i64 - 2, i32::MAX as i64 + 2, i32::MIN as i64 - 2, i32::MIN as i64 + 2] {
        for d in -3..=3 {
            let text = format!("{}", n + d);
            assert_eq!(parse_i32(&text), text.parse::<i32>().ok(), "parsing {:?}", text);
            let plus = format!("+{}", n + d);
            assert_eq!(parse_i32(&plus), plus.parse::<i32>().ok(), "parsing {:?}", plus);
            let padded = format!("000{}", (n + d).abs());
            assert_eq!(parse_i32(&padded), padded.parse::<i32>().ok(), "parsing {:?}", padded);
        }
    }
}

#[test]
fn parse_i32_reads_what_decimal_writes() {
    for n in (-3000..3000).chain([i32::MAX, i32::MIN, i32::MAX - 1, i32::MIN + 1]) {
        assert_eq!(decimal(n), n.to_string());
        assert_eq!(signed_decimal(n), format!("{:+}", n));
        assert_eq!(parse_i32(&decimal(n)), Some(n));
        assert_eq!(parse_i32(&signed_decimal(n)), Some(n));
    }
}

/// Trimming by draining the leading blanks and truncating the trailing
/// ones, each only when a character that is not blank is found.
fn trim_by_draining(s: &mut String) {
    if let Some(index) = s.chars().position(|c| c != ' ' && c != '\n' && c != '\t') {
        s.drain(0..index);
    }
    if let Some(index) = s.chars().rev().position(|c| c != ' ' && c != '\n' && c != '\t') {
        s.truncate(s.len() - index)
    }
}

#[test]
fn trim_string_agrees_with_draining_on_all_short_texts() {
    for text in texts(&[' ', '\n', '\t', 'a', 'é'], 6) {
        let mut expected = text.clone();
        trim_by_draining(&mut expected);
        let mut trimmed = text.clone();
        trim_string(&mut trimmed);
        assert_eq!(trimmed, expected, "trimming {:?}", text);
        assert_eq!(trim(&text), expected, "trimming {:?}", text);
    }
}

/// The resolution by splitting at commas, trimming and parsing.
fn resolution_by_splitting(output: &str) -> Result<(i32, i32), ResolutionError> {
    let mut split = output.split(',');
    let mut width = split.next().unwrap().to_string();
    let mut height = split.next().ok_or(ResolutionError::MissingHeight)?.to_string();
    trim_by_draining(&mut width);
    trim_by_draining(&mut height);
    let width = width.parse().map_err(|_| ResolutionError::InvalidWidth)?;
    let height = height.parse().map_err(|_| ResolutionError::InvalidHeight)?;
    Ok((width, height))
}

#[test]
fn get_resolution_agrees_with_splitting_on_all_short_outputs() {
    for output in texts(&['1', '0', ',', ' ', '\n', '-', 'x'], 6) {
        assert_eq!(get_resolution(&output), resolution_by_splitting(&output), "reading {:?}", output);
    }
}

#[test]
fn selection_agrees_with_the_first_line_on_all_short_outputs() {
    for output in texts(&['a', '/', '\n', ' '], 6) {
        let expected = output.split('\n').next().filter(|line| !line.is_empty());
        assert_eq!(
            ask_user_input_single(&output).ok(),
            expected.map(|line| line.to_string()),
            "reading {:?}",
            output
        );
    }
}

#[test]
fn trimming_twice_is_trimming_once() {
    for text in texts(&[' ', '\n', '\t', 'a'], 7) {
        let once = trim(&text);
        assert_eq!(trim(&once), once, "trimming {:?}", text);
    }
}
