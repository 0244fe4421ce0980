//! Small text utilities shared by the tool adapters.

use vstd::prelude::*;
use vstd::string::*;

verus! {

/// Why an operating system call failed, as far as the messages tell the
/// cases apart.
#[derive(Clone, Copy, Debug, PartialEq, Eq, Structural)]
pub enum IoFailure {
    /// The file or program was not found.
    NotFound,
    /// The permissions do not allow the operation.
    PermissionDenied,
    /// Any other cause.
    Other,
}

#[verifier::external_type_specification]
#[verifier::external_body]
pub struct ExIoError(std::io::Error);

/// The class of the kind of `err`: what `std::io::Error::kind` gives for
/// it, with `NotFound` and `PermissionDenied` as the variants of the same
/// name and every other kind as `Other`. An error has one kind, whenever
/// and wherever it is asked.
pub uninterp spec fn failure_kind(err: std::io::Error) -> IoFailure;

/// The class of `err`, by `std::io::Error::kind`: `NotFound` and
/// `PermissionDenied` map to the variants of the same name, every other
/// kind to `Other`. The result is the class that `failure_kind` names.
#[verifier::external_body]
pub(crate) fn failure_of(err: &std::io::Error) -> (r: IoFailure)
    ensures
        r == failure_kind(*err),
{
    match err.kind() {
        std::io::ErrorKind::NotFound => IoFailure::NotFound,
        std::io::ErrorKind::PermissionDenied => IoFailure::PermissionDenied,
        _ => IoFailure::Other,
    }
}

/// What `err` says of itself, by its `Display`. Nothing is claimed of the
/// result.
#[verifier::external_body]
pub(crate) fn text_of(err: &std::io::Error) -> String {
    format!("{}", err)
}

/// What is reported when the program `command_name` could not be started
/// for the reason `failure`.
pub open spec fn command_failure_message_of(command_name: Seq<char>, failure: IoFailure) -> Seq<
    char,
> {
    if failure == IoFailure::NotFound {
        command_name + " binary not found"@
    } else {
        "Could not start "@ + command_name
    }
}

/// The message for a program that could not be started: that its binary
/// was not found, or else that it could not be started.
pub fn command_failure_message(command_name: &str, failure: IoFailure) -> (message: String)
    ensures
        message@ == command_failure_message_of(command_name@, failure),
{
    match failure {
        IoFailure::NotFound => command_name.to_owned().concat(" binary not found"),
        _ => "Could not start ".to_owned().concat(command_name),
    }
}

/// The message for the error `err` that starting the program
/// `command_name` ended with: that the binary was not found when that is
/// the kind of `err`, that the program could not be started otherwise.
pub fn make_error_message_after_command_call(command_name: &str, err: std::io::Error) -> (message:
    String)
    ensures
        message@ == command_failure_message_of(command_name@, failure_kind(err)),
{
    command_failure_message(command_name, failure_of(&err))
}

/// The characters that trimming removes: space, line feed and tab.
pub open spec fn is_blank(c: char) -> bool {
    c == ' ' || c == '\n' || c == '\t'
}

/// The number of blank characters that `s` begins with.
pub open spec fn leading_blanks(s: Seq<char>) -> nat
    decreases s.len(),
{
    if s.len() == 0 || !is_blank(s.first()) {
        0
    } else {
        1 + leading_blanks(s.drop_first())
    }
}

/// The number of blank characters that `s` ends with.
pub open spec fn trailing_blanks(s: Seq<char>) -> nat
    decreases s.len(),
{
    if s.len() == 0 || !is_blank(s.last()) {
        0
    } else {
        1 + trailing_blanks(s.drop_last())
    }
}

/// `s` without the blanks it begins and ends with. A text of blanks only
/// is left as it is.
pub open spec fn trimmed(s: Seq<char>) -> Seq<char> {
    if leading_blanks(s) == s.len() {
        s
    } else {
        s.subrange(leading_blanks(s) as int, s.len() - trailing_blanks(s))
    }
}

/// The blanks at either end leave room for what is between them.
pub proof fn lemma_blanks(s: Seq<char>)
    ensures
        leading_blanks(s) <= s.len(),
        trailing_blanks(s) <= s.len(),
        leading_blanks(s) < s.len() ==> leading_blanks(s) + trailing_blanks(s) < s.len(),
        forall|i: int| 0 <= i < leading_blanks(s) ==> is_blank(#[trigger] s[i]),
        forall|i: int| s.len() - trailing_blanks(s) <= i < s.len() ==> is_blank(#[trigger] s[i]),
        leading_blanks(s) < s.len() ==> !is_blank(s[leading_blanks(s) as int]),
        trailing_blanks(s) < s.len() ==> !is_blank(s[s.len() - trailing_blanks(s) - 1]),
    decreases s.len(),
{
    if s.len() > 0 {
        let front = s.drop_first();
        let back = s.drop_last();
        lemma_blanks(front);
        lemma_blanks(back);
        if is_blank(s.first()) {
            assert forall|i: int| 0 <= i < leading_blanks(s) implies is_blank(#[trigger] s[i]) by {
                if i > 0 {
                    assert(s[i] == front[i - 1]);
                }
            }
            if leading_blanks(front) < front.len() {
                assert(s[leading_blanks(s) as int] == front[leading_blanks(front) as int]);
            }
        }
        if is_blank(s.last()) {
            assert forall|i: int| s.len() - trailing_blanks(s) <= i < s.len() implies is_blank(
                #[trigger] s[i],
            ) by {
                if i < s.len() - 1 {
                    assert(s[i] == back[i]);
                }
            }
            if trailing_blanks(back) < back.len() {
                assert(s[s.len() - trailing_blanks(s) - 1] == back[back.len() - trailing_blanks(
                    back,
                ) - 1]);
            }
        }
    }
}

/// Trimming what is trimmed changes nothing.
pub proof fn lemma_trimmed_twice(s: Seq<char>)
    ensures
        trimmed(trimmed(s)) == trimmed(s),
{
    lemma_blanks(s);
    let t = trimmed(s);
    if leading_blanks(s) < s.len() {
        let lead = leading_blanks(s) as int;
        let trail = trailing_blanks(s) as int;
        assert(t.first() == s[lead]);
        assert(t.last() == s[s.len() - trail - 1]);
        assert(leading_blanks(t) == 0);
        assert(trailing_blanks(t) == 0);
        assert(t.subrange(0, t.len() as int) =~= t);
    }
}

/// Counting from the front: `count` blanks followed by a character that is
/// not blank, or by the end, are all the leading blanks.
proof fn lemma_leading_blanks_is(s: Seq<char>, count: int)
    requires
        0 <= count <= s.len(),
        forall|i: int| 0 <= i < count ==> is_blank(#[trigger] s[i]),
        count < s.len() ==> !is_blank(s[count]),
    ensures
        leading_blanks(s) == count,
    decreases s.len(),
{
    if count > 0 {
        let front = s.drop_first();
        assert(is_blank(s[0]));
        assert forall|i: int| 0 <= i < count - 1 implies is_blank(#[trigger] front[i]) by {
            assert(front[i] == s[i + 1]);
        }
        lemma_leading_blanks_is(front, count - 1);
    }
}

/// Counting from the back, likewise.
proof fn lemma_trailing_blanks_is(s: Seq<char>, count: int)
    requires
        0 <= count <= s.len(),
        forall|i: int| s.len() - count <= i < s.len() ==> is_blank(#[trigger] s[i]),
        count < s.len() ==> !is_blank(s[s.len() - count - 1]),
    ensures
        trailing_blanks(s) == count,
    decreases s.len(),
{
    if count > 0 {
        let back = s.drop_last();
        assert(is_blank(s[s.len() - 1]));
        assert forall|i: int| back.len() - (count - 1) <= i < back.len() implies is_blank(
            #[trigger] back[i],
        ) by {
            assert(back[i] == s[i]);
        }
        lemma_trailing_blanks_is(back, count - 1);
    }
}

fn is_blank_char(c: char) -> (r: bool)
    ensures
        r == is_blank(c),
{
    c == ' ' || c == '\n' || c == '\t'
}

/// `text` without the blanks it begins and ends with.
pub fn trim(text: &str) -> (r: String)
    ensures
        r@ == trimmed(text@),
{
    let n = text.unicode_len();
    let mut lead: usize = 0;
    while lead < n && is_blank_char(text.get_char(lead))
        invariant
            lead <= n == text@.len(),
            forall|i: int| 0 <= i < lead ==> is_blank(#[trigger] text@[i]),
        decreases n - lead,
    {
        lead = lead + 1;
    }
    proof {
        lemma_leading_blanks_is(text@, lead as int);
    }
    if lead == n {
        return text.to_owned();
    }
    let mut trail: usize = 0;
    while trail < n && is_blank_char(text.get_char(n - trail - 1))
        invariant
            trail <= n == text@.len(),
            forall|i: int| n - trail <= i < n ==> is_blank(#[trigger] text@[i]),
        decreases n - trail,
    {
        trail = trail + 1;
    }
    proof {
        lemma_trailing_blanks_is(text@, trail as int);
        lemma_blanks(text@);
    }
    text.substring_char(lead, n - trail).to_owned()
}

/// Removes from `s` the blanks it begins and ends with, and hands `s`
/// back. A text of blanks only is left as it is.
pub fn trim_string(s: &mut String) -> (r: &mut String)
    ensures
        r@ == trimmed(old(s)@),
        final(s)@ == final(r)@,
{
    let t = trim(s.as_str());
    *s = t;
    s
}

} // verus!
