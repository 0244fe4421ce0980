//! The prober and the transcoder: how `ffprobe` and `ffmpeg` are invoked
//! and how the prober's answer is read.

use crate::command::{Command, CommandView};
use crate::number::{
    decimal, decimal_of, digits_of, is_digit, lemma_decimal_round_trip, lemma_digits_of, parse_i32,
    parsed_i32,
};
use crate::text::{find_from, first_index_of, lemma_first_index_of_unique};
use crate::utils::{
    is_blank, leading_blanks, lemma_blanks, trailing_blanks, trim, trimmed,
};
use vstd::prelude::*;
use vstd::string::*;

verus! {

/// Why the prober's output states no resolution.
#[derive(Clone, Copy, Debug, PartialEq, Eq, Structural)]
pub enum ResolutionError {
    /// The output has no comma, so no height after the width.
    MissingHeight,
    /// What stands before the first comma is no number.
    InvalidWidth,
    /// What stands after the first comma is no number.
    InvalidHeight,
}

impl ResolutionError {
    /// The message of the error.
    pub open spec fn message_of(self) -> Seq<char> {
        match self {
            ResolutionError::MissingHeight => "After ffprobe split, failed to get height"@,
            ResolutionError::InvalidWidth => "Failed to parse width string"@,
            ResolutionError::InvalidHeight => "Failed to parse height string"@,
        }
    }

    /// The message of the error.
    pub fn message(&self) -> (r: String)
        ensures
            r@ == self.message_of(),
    {
        match self {
            ResolutionError::MissingHeight => "After ffprobe split, failed to get height".to_owned(),
            ResolutionError::InvalidWidth => "Failed to parse width string".to_owned(),
            ResolutionError::InvalidHeight => "Failed to parse height string".to_owned(),
        }
    }
}

/// The invocation of the prober that prints the width and the height of
/// the first video stream of `file_path`, separated by a comma.
pub open spec fn resolution_probe_of(file_path: Seq<char>) -> CommandView {
    CommandView {
        program: "ffprobe"@,
        args: seq![
            "-v"@,
            "error"@,
            "-select_streams"@,
            "v:0"@,
            "-show_entries"@,
            "stream=width,height"@,
            "-of"@,
            "csv=p=0"@,
            file_path,
        ],
    }
}

/// The invocation of the prober for `file_path`.
pub fn resolution_probe(file_path: &str) -> (r: Command)
    ensures
        r@ == resolution_probe_of(file_path@),
{
    let r = Command::new("ffprobe").arg("-v").arg("error").arg("-select_streams").arg("v:0").arg(
        "-show_entries",
    ).arg("stream=width,height").arg("-of").arg("csv=p=0").arg(file_path);
    assert(r@.args =~= resolution_probe_of(file_path@).args);
    r
}

/// The text of the width in the prober's output: what stands before the
/// first comma.
pub open spec fn width_text_of(output: Seq<char>) -> Seq<char> {
    output.take(first_index_of(output, ','))
}

/// The text of the height in the prober's output: what stands between the
/// first comma and the second, or the end.
pub open spec fn height_text_of(output: Seq<char>) -> Seq<char> {
    let rest = output.skip(first_index_of(output, ',') + 1);
    rest.take(first_index_of(rest, ','))
}

/// The resolution that the prober's output states: width and height are
/// the first two of its fields separated by commas, each trimmed and read
/// as a number. A missing height is found before a malformed width, a
/// malformed width before a malformed height.
pub open spec fn resolution_of(output: Seq<char>) -> Result<(int, int), ResolutionError> {
    if first_index_of(output, ',') >= output.len() {
        Err(ResolutionError::MissingHeight)
    } else {
        match parsed_i32(trimmed(width_text_of(output))) {
            None => Err(ResolutionError::InvalidWidth),
            Some(width) => match parsed_i32(trimmed(height_text_of(output))) {
                None => Err(ResolutionError::InvalidHeight),
                Some(height) => Ok((width, height)),
            },
        }
    }
}

/// A number in decimal is a digit or a `-`, then digits.
proof fn lemma_decimal_text(n: int)
    ensures
        decimal_of(n).len() > 0,
        forall|i: int|
            0 <= i < decimal_of(n).len() ==> is_digit(#[trigger] decimal_of(n)[i]) || (i == 0
                && decimal_of(n)[i] == '-'),
        is_digit(decimal_of(n).last()),
{
    let magnitude = if n < 0 {
        (-n) as nat
    } else {
        n as nat
    };
    lemma_digits_of(magnitude);
    let digits = digits_of(magnitude);
    assert(is_digit(digits[digits.len() - 1]));
    if n < 0 {
        assert forall|i: int| 0 <= i < decimal_of(n).len() implies is_digit(
            #[trigger] decimal_of(n)[i],
        ) || (i == 0 && decimal_of(n)[i] == '-') by {
            if i > 0 {
                assert(decimal_of(n)[i] == digits[i - 1]);
            }
        }
        assert(decimal_of(n).last() == digits[digits.len() - 1]);
    }
}

/// The prober's answer is read as it was meant: a width and a height in
/// decimal, separated by a comma and ended by a line feed, are read as
/// that width and that height.
pub proof fn law_resolution_is_read_back(width: int, height: int)
    requires
        i32::MIN <= width <= i32::MAX,
        i32::MIN <= height <= i32::MAX,
    ensures
        resolution_of(decimal_of(width) + seq![','] + decimal_of(height) + seq!['\n']) == Ok::<
            (int, int),
            ResolutionError,
        >((width, height)),
{
    let w = decimal_of(width);
    let h = decimal_of(height);
    let output = w + seq![','] + h + seq!['\n'];
    lemma_decimal_text(width);
    lemma_decimal_text(height);
    lemma_decimal_round_trip(width);
    lemma_decimal_round_trip(height);
    assert forall|j: int| 0 <= j < w.len() implies output[j] != ',' by {
        assert(output[j] == w[j]);
    }
    assert(output[w.len() as int] == ',');
    lemma_first_index_of_unique(output, ',', w.len() as int);
    assert(width_text_of(output) =~= w);
    let rest = output.skip(w.len() as int + 1);
    assert(rest =~= h + seq!['\n']);
    assert forall|j: int| 0 <= j < rest.len() implies rest[j] != ',' by {
        if j < h.len() {
            assert(rest[j] == h[j]);
        }
    }
    lemma_first_index_of_unique(rest, ',', rest.len() as int);
    assert(height_text_of(output) =~= rest);
    lemma_untouched(w);
    lemma_blanks(rest);
    assert(!is_blank(rest[0])) by {
        assert(rest[0] == h[0]);
    }
    assert(leading_blanks(rest) == 0);
    assert(trailing_blanks(rest) == 1) by {
        assert(rest.last() == '\n');
        assert(rest.drop_last() =~= h);
        assert(!is_blank(h.last()));
    }
    assert(trimmed(rest) =~= h);
}

/// Text that neither begins nor ends with a blank is trimmed already.
proof fn lemma_untouched(s: Seq<char>)
    requires
        s.len() > 0,
        !is_blank(s.first()),
        !is_blank(s.last()),
    ensures
        trimmed(s) == s,
{
    assert(leading_blanks(s) == 0);
    assert(trailing_blanks(s) == 0);
    assert(s.subrange(0, s.len() as int) =~= s);
}

/// The view of a parsed resolution.
pub open spec fn resolution_view(r: Result<(i32, i32), ResolutionError>) -> Result<
    (int, int),
    ResolutionError,
> {
    match r {
        Ok((width, height)) => Ok((width as int, height as int)),
        Err(error) => Err(error),
    }
}

/// Reads the resolution, as width and height, from what the prober
/// printed.
pub fn get_resolution(output: &str) -> (r: Result<(i32, i32), ResolutionError>)
    ensures
        resolution_view(r) == resolution_of(output@),
{
    let n = output.unicode_len();
    let comma = find_from(output, 0, ',');
    proof {
        assert(output@.skip(0) =~= output@);
    }
    if comma >= n {
        return Err(ResolutionError::MissingHeight);
    }
    let end = find_from(output, comma + 1, ',');
    proof {
        assert(output@.subrange(0, comma as int) =~= width_text_of(output@));
        assert(output@.subrange(comma + 1, end as int) =~= height_text_of(output@));
    }
    let width_text = trim(output.substring_char(0, comma));
    let height_text = trim(output.substring_char(comma + 1, end));
    match parse_i32(width_text.as_str()) {
        None => Err(ResolutionError::InvalidWidth),
        Some(width) => match parse_i32(height_text.as_str()) {
            None => Err(ResolutionError::InvalidHeight),
            Some(height) => Ok((width, height)),
        },
    }
}

/// The invocation of the transcoder that writes to `rescaled_path` the
/// video `video_path` scaled to `new_width` by `new_height`.
pub open spec fn rescale_video_of(
    video_path: Seq<char>,
    new_width: int,
    new_height: int,
    rescaled_path: Seq<char>,
) -> CommandView {
    CommandView {
        program: "ffmpeg"@,
        args: seq![
            "-hide_banner"@,
            "-loglevel"@,
            "error"@,
            "-i"@,
            video_path,
            "-vf"@,
            "scale="@ + decimal_of(new_width) + ":"@ + decimal_of(new_height),
            rescaled_path,
        ],
    }
}

/// The invocation of the transcoder that rescales a video.
pub fn rescale_video(
    video_path: &str,
    new_width: i32,
    new_height: i32,
    rescaled_path: &str,
) -> (r: Command)
    ensures
        r@ == rescale_video_of(
            video_path@,
            new_width as int,
            new_height as int,
            rescaled_path@,
        ),
{
    let scale = "scale=".to_owned().concat(decimal(new_width).as_str()).concat(":").concat(
        decimal(new_height).as_str(),
    );
    let r = Command::new("ffmpeg").arg("-hide_banner").arg("-loglevel").arg("error").arg("-i").arg(
        video_path,
    ).arg("-vf").arg(scale.as_str()).arg(rescaled_path);
    assert(r@.args =~= rescale_video_of(
        video_path@,
        new_width as int,
        new_height as int,
        rescaled_path@,
    ).args);
    r
}

/// The invocation of the transcoder that writes to `thumbnail_path` the
/// first frame of `video_path`, 520 pixels wide.
pub open spec fn generate_thumbnail_of(
    video_path: Seq<char>,
    thumbnail_path: Seq<char>,
) -> CommandView {
    CommandView {
        program: "ffmpeg"@,
        args: seq![
            "-hide_banner"@,
            "-loglevel"@,
            "error"@,
            "-i"@,
            video_path,
            "-ss"@,
            "00:00:00.000"@,
            "-vframes"@,
            "1"@,
            "-vf"@,
            "scale=520:-1"@,
            thumbnail_path,
        ],
    }
}

/// The invocation of the transcoder that generates a thumbnail.
pub fn generate_thumbnail(video_path: &str, thumbnail_path: &str) -> (r: Command)
    ensures
        r@ == generate_thumbnail_of(video_path@, thumbnail_path@),
{
    let r = Command::new("ffmpeg").arg("-hide_banner").arg("-loglevel").arg("error").arg("-i").arg(
        video_path,
    ).arg("-ss").arg("00:00:00.000").arg("-vframes").arg("1").arg("-vf").arg("scale=520:-1").arg(
        thumbnail_path,
    );
    assert(r@.args =~= generate_thumbnail_of(video_path@, thumbnail_path@).args);
    r
}

/// What came of a run of the tool `tool` that ended: nothing to report
/// when it ended in success, the tool's failure otherwise.
pub fn finished(tool: &str, success: bool) -> (r: Result<(), String>)
    ensures
        match r {
            Ok(_) => success,
            Err(message) => !success && message@ == tool@ + " failed"@,
        },
{
    if success {
        Ok(())
    } else {
        Err(failure_message(tool))
    }
}

/// What is reported when the tool `tool` was started and then failed, or
/// could not be waited for.
pub fn failure_message(tool: &str) -> (r: String)
    ensures
        r@ == tool@ + " failed"@,
{
    tool.to_owned().concat(" failed")
}

} // verus!
