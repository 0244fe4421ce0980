//! Derivation policy: under which key each cache holds what is derived
//! from a wallpaper, and when a derived file has to be produced.

use crate::config::full_config::ConfigResolution;
use crate::path::{is_file_name, stem, stem_of};
use crate::text::{lemma_last_index_of, lemma_last_index_of_unique};
use vstd::prelude::*;
use vstd::string::*;

verus! {

/// The extension of every thumbnail, with its dot.
pub open spec fn thumbnail_suffix() -> Seq<char> {
    seq!['.', 'j', 'p', 'g']
}

/// The name under which the thumbnail cache holds the thumbnail of the
/// wallpaper `name`: the wallpaper's stem, then `.jpg`.
pub open spec fn thumbnail_key_of(name: Seq<char>) -> Seq<char> {
    stem_of(name) + thumbnail_suffix()
}

/// The name under which the rescaled cache holds the rescaled copy of the
/// wallpaper `name`: the wallpaper's full name, extension included.
pub open spec fn rescaled_key_of(name: Seq<char>) -> Seq<char> {
    name
}

/// A wallpaper has to be rescaled when it is not in the target resolution
/// already and no rescaled copy exists.
pub open spec fn rescale_needed(
    native: ConfigResolution,
    target: ConfigResolution,
    rescaled_exists: bool,
) -> bool {
    native != target && !rescaled_exists
}

/// Wallpapers share a thumbnail key exactly when they share a stem.
pub proof fn lemma_thumbnail_key_by_stem(a: Seq<char>, b: Seq<char>)
    ensures
        thumbnail_key_of(a) == thumbnail_key_of(b) <==> stem_of(a) == stem_of(b),
{
    let x = stem_of(a);
    let y = stem_of(b);
    if thumbnail_key_of(a) == thumbnail_key_of(b) {
        assert((x + thumbnail_suffix()).len() == x.len() + 4);
        assert((y + thumbnail_suffix()).len() == y.len() + 4);
        assert forall|k: int| 0 <= k < x.len() implies x[k] == y[k] by {
            assert(x[k] == (x + thumbnail_suffix())[k]);
            assert(y[k] == (y + thumbnail_suffix())[k]);
        }
        assert(x =~= y);
    }
}

/// The thumbnail key of a wallpaper with a plain file name is a plain file
/// name of the wallpaper's stem.
pub proof fn lemma_thumbnail_key_is_name(name: Seq<char>)
    requires
        is_file_name(name),
    ensures
        is_file_name(thumbnail_key_of(name)),
        stem_of(thumbnail_key_of(name)) == stem_of(name),
{
    let stem = stem_of(name);
    let key = thumbnail_key_of(name);
    lemma_last_index_of(name, '.');
    let n = stem.len() as int;
    assert(n > 0);
    assert(key.len() == n + 4);
    assert(key[n] == '.');
    assert(key[n + 1] == 'j');
    assert(key[n + 2] == 'p');
    assert(key[n + 3] == 'g');
    assert forall|j: int| n < j < key.len() implies key[j] != '.' by {}
    lemma_last_index_of_unique(key, '.', n);
    assert(key.take(n) =~= stem);
    if key.contains('/') {
        let k = choose|k: int| 0 <= k < key.len() && key[k] == '/';
        if k < n {
            assert(stem[k] == '/');
            assert(name[k] == '/');
        }
    }
}

/// The thumbnail cache key of the wallpaper named `name`.
pub fn thumbnail_key(name: &str) -> (key: String)
    ensures
        key@ == thumbnail_key_of(name@),
{
    proof {
        reveal_strlit(".jpg");
        assert(".jpg"@ =~= thumbnail_suffix());
    }
    stem(name).concat(".jpg")
}

/// The rescaled cache key of the wallpaper named `name`.
pub fn rescaled_key(name: &str) -> (key: String)
    ensures
        key@ == rescaled_key_of(name@),
{
    name.to_owned()
}

/// Whether a thumbnail has to be generated: exactly when none exists under
/// the wallpaper's thumbnail key. The wallpaper's resolution plays no part.
pub fn needs_thumbnail(thumbnail_exists: bool) -> (needed: bool)
    ensures
        needed == !thumbnail_exists,
{
    !thumbnail_exists
}

/// Whether a rescaled copy has to be produced.
pub fn needs_rescale(
    native: ConfigResolution,
    target: ConfigResolution,
    rescaled_exists: bool,
) -> (needed: bool)
    ensures
        needed == rescale_needed(native, target, rescaled_exists),
{
    !(native.width == target.width && native.height == target.height) && !rescaled_exists
}

} // verus!
