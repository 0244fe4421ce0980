//! From what the user picked back to the wallpaper to play: the picker
//! shows cache entries, the player is given the rescaled copy of the
//! wallpaper of the same stem, or the wallpaper itself where it has none.

use crate::config::full_config::{FullConfig, FullConfigView};
use crate::path::{
    file_name, file_name_of, file_stem, file_stem_of, is_file_name, joined, lemma_file_name_of_name,
    lemma_joined_file_name, stem, stem_of,
};
use crate::policy::{lemma_thumbnail_key_is_name, thumbnail_key_of};
use crate::sxiv::{ask_user_input_single, first_line_of};
use vstd::prelude::*;
use vstd::string::*;

verus! {

/// Why a selection leads to no wallpaper.
#[derive(Clone, Copy, Debug, PartialEq, Eq, Structural)]
pub enum SelectError {
    /// The user selected nothing.
    NoSelection,
    /// The selected path names no file.
    NoName,
    /// No wallpaper has the stem of the selected file: the cache is stale.
    NoWallpaper,
}

impl SelectError {
    /// The message of the error.
    pub open spec fn message_of(self) -> Seq<char> {
        match self {
            SelectError::NoSelection => "No wallpaper selected."@,
            SelectError::NoName => "Selected wallpaper has no name"@,
            SelectError::NoWallpaper => "Could not find corresponding wallpaper"@,
        }
    }

    /// The message of the error.
    pub fn message(&self) -> (r: String)
        ensures
            r@ == self.message_of(),
    {
        match self {
            SelectError::NoSelection => "No wallpaper selected.".to_owned(),
            SelectError::NoName => "Selected wallpaper has no name".to_owned(),
            SelectError::NoWallpaper => "Could not find corresponding wallpaper".to_owned(),
        }
    }
}

/// The wallpaper to play, by its file name.
#[derive(Clone, Debug, PartialEq, Eq)]
pub enum Selected {
    /// An entry of the rescaled cache.
    Rescaled(String),
    /// A file of the wallpaper directory.
    Wallpaper(String),
}

/// `Selected` as a mathematical value.
pub ghost enum SelectedView {
    Rescaled(Seq<char>),
    Wallpaper(Seq<char>),
}

impl View for Selected {
    type V = SelectedView;

    open spec fn view(&self) -> SelectedView {
        match *self {
            Selected::Rescaled(name) => SelectedView::Rescaled(name@),
            Selected::Wallpaper(name) => SelectedView::Wallpaper(name@),
        }
    }
}

/// The first of `entries` whose stem is `stem`, if there is one.
pub open spec fn first_with_stem(entries: Seq<Seq<char>>, stem: Seq<char>) -> Option<Seq<char>>
    decreases entries.len(),
{
    if entries.len() == 0 {
        None
    } else if file_stem_of(entries.first()) == Some(stem) {
        Some(entries.first())
    } else {
        first_with_stem(entries.drop_first(), stem)
    }
}

/// What `first_with_stem` finds has the stem, is among the entries, and no
/// entry before it has the stem; it finds nothing only when no entry has
/// the stem.
pub proof fn lemma_first_with_stem(entries: Seq<Seq<char>>, stem: Seq<char>)
    ensures
        match first_with_stem(entries, stem) {
            Some(found) => exists|i: int|
                0 <= i < entries.len() && entries[i] == found && file_stem_of(found) == Some(stem)
                    && forall|j: int| 0 <= j < i ==> file_stem_of(#[trigger] entries[j]) != Some(stem),
            None => forall|j: int|
                0 <= j < entries.len() ==> file_stem_of(#[trigger] entries[j]) != Some(stem),
        },
    decreases entries.len(),
{
    if entries.len() > 0 {
        let rest = entries.drop_first();
        if file_stem_of(entries.first()) == Some(stem) {
            assert(entries[0] == entries.first());
        } else {
            lemma_first_with_stem(rest, stem);
            match first_with_stem(rest, stem) {
                Some(found) => {
                    let i = choose|i: int|
                        0 <= i < rest.len() && rest[i] == found && file_stem_of(found) == Some(stem)
                            && forall|j: int|
                            0 <= j < i ==> file_stem_of(#[trigger] rest[j]) != Some(stem);
                    assert(entries[i + 1] == found);
                    assert forall|j: int| 0 <= j < i + 1 implies file_stem_of(
                        #[trigger] entries[j],
                    ) != Some(stem) by {
                        if j > 0 {
                            assert(entries[j] == rest[j - 1]);
                        }
                    }
                },
                None => {
                    assert forall|j: int| 0 <= j < entries.len() implies file_stem_of(
                        #[trigger] entries[j],
                    ) != Some(stem) by {
                        if j > 0 {
                            assert(entries[j] == rest[j - 1]);
                        }
                    }
                },
            }
        }
    }
}

/// Finds among `entries`, the names of a directory's entries in listing
/// order, the first whose stem is `stem`.
pub fn find_wallpaper_path(entries: &Vec<String>, stem: &str) -> (r: Option<String>)
    ensures
        r.deep_view() == first_with_stem(entries.deep_view(), stem@),
{
    let wanted = stem.to_owned();
    let mut i: usize = 0;
    proof {
        assert(entries.deep_view().skip(0) =~= entries.deep_view());
    }
    while i < entries.len()
        invariant
            i <= entries.len(),
            wanted@ == stem@,
            first_with_stem(entries.deep_view(), stem@) == first_with_stem(
                entries.deep_view().skip(i as int),
                stem@,
            ),
        decreases entries.len() - i,
    {
        proof {
            let rest = entries.deep_view().skip(i as int);
            assert(rest.first() == entries[i as int]@);
            assert(rest.drop_first() =~= entries.deep_view().skip(i + 1));
        }
        let matches = match file_stem(entries[i].as_str()) {
            Some(found) => found == wanted,
            None => false,
        };
        if matches {
            return Some(entries[i].clone());
        }
        i = i + 1;
    }
    None
}

/// The wallpaper that the picker's output leads to. An empty selection
/// leads to none, whatever the directories hold; otherwise the selected
/// path, the first line of the output, is resolved.
pub open spec fn selected_of(
    output: Seq<char>,
    rescaled: Seq<Seq<char>>,
    wallpapers: Seq<Seq<char>>,
) -> Result<SelectedView, SelectError> {
    if first_line_of(output).len() == 0 {
        Err(SelectError::NoSelection)
    } else {
        resolved_of(first_line_of(output), rescaled, wallpapers)
    }
}

/// An empty selection is fatal: when the picker prints nothing on its
/// first line the selection is the error `NoSelection`, whatever the
/// rescaled cache and the wallpaper directory hold. No search decides and
/// there is no wallpaper to load.
pub proof fn law_empty_pick_selects_nothing(
    output: Seq<char>,
    rescaled: Seq<Seq<char>>,
    wallpapers: Seq<Seq<char>>,
)
    requires
        first_line_of(output).len() == 0,
    ensures
        selected_of(output, rescaled, wallpapers) == Err::<SelectedView, SelectError>(
            SelectError::NoSelection,
        ),
{
}

/// The wallpaper that the selection of `selected_path` leads to: the first
/// entry of the rescaled cache with the stem of the selected file, else
/// the first wallpaper with that stem.
pub open spec fn resolved_of(
    selected_path: Seq<char>,
    rescaled: Seq<Seq<char>>,
    wallpapers: Seq<Seq<char>>,
) -> Result<SelectedView, SelectError> {
    match file_name_of(selected_path) {
        None => Err(SelectError::NoName),
        Some(name) => match first_with_stem(rescaled, stem_of(name)) {
            Some(found) => Ok(SelectedView::Rescaled(found)),
            None => match first_with_stem(wallpapers, stem_of(name)) {
                Some(found) => Ok(SelectedView::Wallpaper(found)),
                None => Err(SelectError::NoWallpaper),
            },
        },
    }
}

/// Every thumbnail leads back to a wallpaper: the selection of the
/// thumbnail of a wallpaper, in whatever directory the thumbnails lie,
/// resolves to a rescaled copy or to a wallpaper of the same stem.
pub proof fn law_thumbnail_leads_back(
    name: Seq<char>,
    thumbnails_dir: Seq<char>,
    rescaled: Seq<Seq<char>>,
    wallpapers: Seq<Seq<char>>,
)
    requires
        is_file_name(name),
        wallpapers.contains(name),
    ensures
        match resolved_of(joined(thumbnails_dir, thumbnail_key_of(name)), rescaled, wallpapers) {
            Ok(SelectedView::Rescaled(found)) => rescaled.contains(found) && file_stem_of(found)
                == Some(stem_of(name)),
            Ok(SelectedView::Wallpaper(found)) => wallpapers.contains(found) && file_stem_of(found)
                == Some(stem_of(name)),
            Err(_) => false,
        },
{
    let key = thumbnail_key_of(name);
    let stem = stem_of(name);
    lemma_thumbnail_key_is_name(name);
    lemma_joined_file_name(thumbnails_dir, key);
    lemma_file_name_of_name(name);
    lemma_first_with_stem(rescaled, stem);
    lemma_first_with_stem(wallpapers, stem);
    let i = choose|i: int| 0 <= i < wallpapers.len() && wallpapers[i] == name;
    assert(file_stem_of(wallpapers[i]) == Some(stem));
}

/// The view of a resolved selection.
pub open spec fn selected_view(r: Result<Selected, SelectError>) -> Result<
    SelectedView,
    SelectError,
> {
    match r {
        Ok(selected) => Ok(selected@),
        Err(error) => Err(error),
    }
}

/// Resolves what the picker printed to the wallpaper to play. `rescaled`
/// lists the rescaled cache and `wallpapers` the wallpaper directory, by
/// entry name. An empty selection is the error `NoSelection`.
pub fn select_wallpaper(output: &str, rescaled: &Vec<String>, wallpapers: &Vec<String>) -> (r:
    Result<Selected, SelectError>)
    ensures
        selected_view(r) == selected_of(output@, rescaled.deep_view(), wallpapers.deep_view()),
{
    let selected_path = match ask_user_input_single(output) {
        Ok(path) => path,
        Err(_) => {
            return Err(SelectError::NoSelection);
        },
    };
    let name = match file_name(selected_path.as_str()) {
        Some(name) => name,
        None => {
            return Err(SelectError::NoName);
        },
    };
    let selected_stem = stem(name.as_str());
    match find_wallpaper_path(rescaled, selected_stem.as_str()) {
        Some(found) => Ok(Selected::Rescaled(found)),
        None => match find_wallpaper_path(wallpapers, selected_stem.as_str()) {
            Some(found) => Ok(Selected::Wallpaper(found)),
            None => Err(SelectError::NoWallpaper),
        },
    }
}

/// The path of the selected wallpaper under `config`.
pub open spec fn selected_path_of(config: FullConfigView, selected: SelectedView) -> Seq<char> {
    match selected {
        SelectedView::Rescaled(name) => joined(config.wallpapers_rescaled_dir, name),
        SelectedView::Wallpaper(name) => joined(config.wallpapers_dir, name),
    }
}

/// The path of the selected wallpaper under `config`.
pub fn selected_path(config: &FullConfig, selected: &Selected) -> (path: String)
    ensures
        path@ == selected_path_of(config@, selected@),
{
    match selected {
        Selected::Rescaled(name) => config.rescaled_path(name.as_str()),
        Selected::Wallpaper(name) => config.wallpaper_path(name.as_str()),
    }
}

} // verus!
