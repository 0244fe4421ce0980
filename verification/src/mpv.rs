//! The player: how the daemon is launched and what is written to its
//! control socket.

use crate::config::full_config::ConfigResolution;
use crate::config::ConfigOffset;
use crate::json::{escape, escaped, is_control, is_string_body, law_escaped, unescaped};
use crate::command::{Command, CommandView};
use crate::number::{decimal, decimal_of, signed_decimal, signed_decimal_of};
use vstd::prelude::*;
use vstd::string::*;

verus! {

/// The geometry of the player's window, as X11 writes it: width, `x`,
/// height, then both offsets with their signs.
pub open spec fn geometry_of(resolution: ConfigResolution, offset: ConfigOffset) -> Seq<char> {
    decimal_of(resolution.width as int) + "x"@ + decimal_of(resolution.height as int)
        + signed_decimal_of(offset.x as int) + signed_decimal_of(offset.y as int)
}

/// The geometry of the player's window.
pub fn geometry(resolution: ConfigResolution, offset: ConfigOffset) -> (r: String)
    ensures
        r@ == geometry_of(resolution, offset),
{
    decimal(resolution.width).concat("x").concat(decimal(resolution.height).as_str()).concat(
        signed_decimal(offset.x).as_str(),
    ).concat(signed_decimal(offset.y).as_str())
}

/// The invocation that binds a borderless, looping, silent player to the
/// desktop background at the given geometry, idle and listening for
/// commands on the socket `socket_path`.
pub open spec fn run_of(
    socket_path: Seq<char>,
    resolution: ConfigResolution,
    offset: ConfigOffset,
) -> CommandView {
    CommandView {
        program: "xwinwrap"@,
        args: seq![
            "-ov"@,
            "-b"@,
            "-fs"@,
            "-ni"@,
            "-un"@,
            "-g"@,
            geometry_of(resolution, offset),
            "--"@,
            "mpv"@,
            "-wid"@,
            "WID"@,
            "--idle="@,
            "--no-osc"@,
            "--no-osd-bar"@,
            "--loop-file"@,
            "--player-operation-mode=cplayer"@,
            "--no-audio"@,
            "--panscan=1.0"@,
            "--no-input-default-bindings"@,
            "--input-ipc-server="@ + socket_path,
        ],
    }
}

/// The invocation of the player daemon.
pub fn run(socket_path: &str, resolution: ConfigResolution, offset: ConfigOffset) -> (r: Command)
    ensures
        r@ == run_of(socket_path@, resolution, offset),
{
    let server = "--input-ipc-server=".to_owned().concat(socket_path);
    let r = Command::new("xwinwrap").arg("-ov").arg("-b").arg("-fs").arg("-ni").arg("-un").arg(
        "-g",
    ).arg(geometry(resolution, offset).as_str()).arg("--").arg("mpv").arg("-wid").arg("WID").arg(
        "--idle=",
    ).arg("--no-osc").arg("--no-osd-bar").arg("--loop-file").arg(
        "--player-operation-mode=cplayer",
    ).arg("--no-audio").arg("--panscan=1.0").arg("--no-input-default-bindings").arg(
        server.as_str(),
    );
    assert(r@.args =~= run_of(socket_path@, resolution, offset).args);
    r
}

/// What stands before the path in the line that has the player load a
/// file.
pub open spec fn load_file_prefix() -> Seq<char> {
    "{\"command\": [\"loadfile\", \""@
}

/// What stands after the path in that line: the end of the JSON object and
/// a line feed.
pub open spec fn load_file_suffix() -> Seq<char> {
    "\"]}\n"@
}

/// What is written to the control socket to have the player load the file
/// `image_path`: one JSON object on one line, ended by a line feed. The
/// path stands in it as a JSON string, escaped.
pub open spec fn load_file_of(image_path: Seq<char>) -> Seq<char> {
    load_file_prefix() + escaped(image_path) + load_file_suffix()
}

/// The line is one line and its string is the path: the only line feed is
/// the last character, what stands between prefix and suffix can stand
/// inside a JSON string, and is read back as `image_path`.
pub proof fn law_load_file_is_one_json_line(image_path: Seq<char>)
    ensures
        ({
            let line = load_file_of(image_path);
            let body = line.subrange(
                load_file_prefix().len() as int,
                line.len() - load_file_suffix().len(),
            );
            &&& body == escaped(image_path)
            &&& is_string_body(body)
            &&& unescaped(body) == image_path
            &&& line.last() == '\n'
            &&& forall|i: int| 0 <= i < line.len() - 1 ==> #[trigger] line[i] != '\n'
        }),
{
    let prefix = load_file_prefix();
    let suffix = load_file_suffix();
    let body = escaped(image_path);
    let line = load_file_of(image_path);
    reveal_strlit("{\"command\": [\"loadfile\", \"");
    reveal_strlit("\"]}\n");
    law_escaped(image_path);
    assert(suffix.len() == 4);
    assert(line.subrange(prefix.len() as int, line.len() - suffix.len()) =~= body);
    assert(line.last() == suffix[3]);
    assert forall|i: int| 0 <= i < line.len() - 1 implies #[trigger] line[i] != '\n' by {
        if i < prefix.len() {
            assert(line[i] == prefix[i]);
        } else if i < prefix.len() + body.len() {
            assert(line[i] == body[i - prefix.len()]);
            assert(!is_control(body[i - prefix.len()]));
        } else {
            assert(line[i] == suffix[i - prefix.len() - body.len()]);
        }
    }
}

/// The command that has the player load `image_path`.
pub fn load_file(image_path: &str) -> (payload: String)
    ensures
        payload@ == load_file_of(image_path@),
{
    "{\"command\": [\"loadfile\", \"".to_owned().concat(escape(image_path).as_str()).concat(
        "\"]}\n",
    )
}

} // verus!
