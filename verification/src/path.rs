//! File names and paths as character sequences, in the Unix convention:
//! components are separated by `/`, `.` stands for the directory itself and
//! `..` for its parent.

use crate::text::{after_last, last_index_of, lemma_last_index_of, lemma_last_index_of_unique};
use vstd::prelude::*;
use vstd::string::*;

verus! {

/// The single-component paths that name no file: empty, `.` and `..`.
pub open spec fn is_special(component: Seq<char>) -> bool {
    component.len() == 0 || component == seq!['.'] || component == seq!['.', '.']
}

/// A plain file name: one component that names a file.
pub open spec fn is_file_name(name: Seq<char>) -> bool {
    !name.contains('/') && !is_special(name)
}

/// The text after the final separator of `path`; all of `path` when it has
/// no separator.
pub open spec fn tail_of(path: Seq<char>) -> Seq<char> {
    path.skip(last_index_of(path, '/') + 1)
}

/// The final component of `path`: trailing separators and `.` components
/// are passed over; there is none when nothing is left or when `..` comes
/// last.
pub open spec fn file_name_of(path: Seq<char>) -> Option<Seq<char>>
    decreases path.len(),
{
    let slash = last_index_of(path, '/');
    let tail = tail_of(path);
    if tail.len() == 0 || tail == seq!['.'] {
        if 0 <= slash < path.len() {
            file_name_of(path.take(slash))
        } else {
            None
        }
    } else if tail == seq!['.', '.'] {
        None
    } else {
        Some(tail)
    }
}

/// The stem of a file name: the part before its final `.`; the whole name
/// when it has no `.` or only a leading one.
pub open spec fn stem_of(name: Seq<char>) -> Seq<char> {
    let dot = last_index_of(name, '.');
    if dot > 0 {
        name.take(dot)
    } else {
        name
    }
}

/// The stem of the final component of `path`.
pub open spec fn file_stem_of(path: Seq<char>) -> Option<Seq<char>> {
    match file_name_of(path) {
        Some(name) => Some(stem_of(name)),
        None => None,
    }
}

/// `rel` adjoined to `base`: an absolute `rel` replaces `base`; otherwise
/// one separator stands between them unless `base` is empty or already
/// ends with one.
pub open spec fn joined(base: Seq<char>, rel: Seq<char>) -> Seq<char> {
    if rel.len() > 0 && rel[0] == '/' {
        rel
    } else if base.len() == 0 || base.last() == '/' {
        base + rel
    } else {
        base + seq!['/'] + rel
    }
}

/// A plain file name is its own final component.
pub proof fn lemma_file_name_of_name(name: Seq<char>)
    ensures
        is_file_name(name) <==> file_name_of(name) == Some(name),
{
    lemma_last_index_of(name, '/');
    let slash = last_index_of(name, '/');
    if slash == -1 {
        assert(name.skip(0) =~= name);
    } else {
        if file_name_of(name) == Some(name) {
            lemma_file_name_len(name);
        }
    }
}

/// The final component is never longer than the text after the last
/// separator allows: it is shorter than a path that holds a separator.
pub proof fn lemma_file_name_len(path: Seq<char>)
    ensures
        file_name_of(path) matches Some(name) ==> {
            &&& name.len() <= path.len()
            &&& is_file_name(name)
            &&& path.contains('/') ==> name.len() < path.len()
        },
    decreases path.len(),
{
    lemma_last_index_of(path, '/');
    let slash = last_index_of(path, '/');
    let tail = tail_of(path);
    if tail.len() == 0 || tail == seq!['.'] {
        if 0 <= slash < path.len() {
            lemma_file_name_len(path.take(slash));
        }
    } else if tail == seq!['.', '.'] {
    } else {
        if tail.contains('/') {
            let k = choose|k: int| 0 <= k < tail.len() && tail[k] == '/';
            assert(path[slash + 1 + k] == '/');
        }
    }
}

/// Joining a directory and a plain file name keeps the name as the final
/// component.
pub proof fn lemma_joined_file_name(base: Seq<char>, name: Seq<char>)
    requires
        is_file_name(name),
    ensures
        file_name_of(joined(base, name)) == Some(name),
{
    let p = joined(base, name);
    assert(name[0] != '/');
    let start = p.len() - name.len();
    assert(p.skip(start) =~= name);
    assert forall|j: int| start <= j < p.len() implies p[j] != '/' by {
        assert(p[j] == name[j - start]);
    }
    if start > 0 {
        assert(p[start - 1] == '/');
    }
    lemma_last_index_of_unique(p, '/', start - 1);
}

/// Two plain names joined to one directory give equal paths only when the
/// names are equal.
pub proof fn lemma_joined_injective(base: Seq<char>, a: Seq<char>, b: Seq<char>)
    requires
        is_file_name(a),
        is_file_name(b),
        joined(base, a) == joined(base, b),
    ensures
        a == b,
{
    lemma_joined_file_name(base, a);
    lemma_joined_file_name(base, b);
}

/// The final component of `path`, as `std::path::Path::file_name` gives it
/// for a Unix path.
pub fn file_name(path: &str) -> (r: Option<String>)
    ensures
        r.deep_view() == file_name_of(path@),
{
    let mut end: usize = path.unicode_len();
    proof {
        assert(path@.take(end as int) =~= path@);
    }
    loop
        invariant
            end <= path@.len(),
            file_name_of(path@) == file_name_of(path@.take(end as int)),
        decreases end,
    {
        let start = after_last(path, end, '/');
        let ghost prefix = path@.take(end as int);
        proof {
            lemma_last_index_of(prefix, '/');
            assert(tail_of(prefix) =~= path@.subrange(start as int, end as int));
            if start > 0 {
                assert(prefix.take(start - 1) =~= path@.take(start - 1));
            }
        }
        let len = end - start;
        let dot_first = len >= 1 && path.get_char(start) == '.';
        let dot_second = len >= 2 && path.get_char(start + 1) == '.';
        proof {
            let tail = tail_of(prefix);
            if len >= 1 {
                assert(tail[0] == path@[start as int]);
            }
            if len >= 2 {
                assert(tail[1] == path@[start + 1]);
            }
            if len == 1 {
                assert(dot_first <==> tail =~= seq!['.']);
            } else {
                assert(tail != seq!['.']);
            }
            if len == 2 {
                assert((dot_first && dot_second) <==> tail =~= seq!['.', '.']);
            } else {
                assert(tail != seq!['.', '.']);
            }
        }
        if len == 0 || (len == 1 && dot_first) {
            if start == 0 {
                return None;
            }
            end = start - 1;
        } else if len == 2 && dot_first && dot_second {
            return None;
        } else {
            return Some(path.substring_char(start, end).to_owned());
        }
    }
}

/// The stem of the plain file name `name`.
pub fn stem(name: &str) -> (r: String)
    ensures
        r@ == stem_of(name@),
{
    let n = name.unicode_len();
    let after = after_last(name, n, '.');
    proof {
        assert(name@.take(n as int) =~= name@);
    }
    if after > 1 {
        name.substring_char(0, after - 1).to_owned()
    } else {
        name.to_owned()
    }
}

/// The stem of the final component of `path`, as
/// `std::path::Path::file_stem` gives it for a Unix path.
pub fn file_stem(path: &str) -> (r: Option<String>)
    ensures
        r.deep_view() == file_stem_of(path@),
{
    match file_name(path) {
        Some(name) => Some(stem(name.as_str())),
        None => None,
    }
}

/// `rel` adjoined to `base`, as `std::path::Path::join` gives it for Unix
/// paths.
pub fn join(base: &str, rel: &str) -> (r: String)
    ensures
        r@ == joined(base@, rel@),
{
    let rel_len = rel.unicode_len();
    let base_len = base.unicode_len();
    if rel_len > 0 && rel.get_char(0) == '/' {
        rel.to_owned()
    } else if base_len == 0 || base.get_char(base_len - 1) == '/' {
        base.to_owned().concat(rel)
    } else {
        proof {
            reveal_strlit("/");
            assert("/"@ =~= seq!['/']);
        }
        base.to_owned().concat("/").concat(rel)
    }
}

} // verus!
