//! Directory listings: what a directory yields and which of its entries
//! are regular files.

use vstd::prelude::*;

verus! {

/// One entry of a directory listing.
#[derive(Clone, Debug, PartialEq, Eq)]
pub struct DirEntry {
    /// The entry's file name within its directory.
    pub name: String,
    /// Whether the entry is a regular file.
    pub is_file: bool,
}

/// A `DirEntry` as a mathematical value.
pub ghost struct DirEntryView {
    pub name: Seq<char>,
    pub is_file: bool,
}

impl View for DirEntry {
    type V = DirEntryView;

    open spec fn view(&self) -> DirEntryView {
        DirEntryView { name: self.name@, is_file: self.is_file }
    }
}

impl DeepView for DirEntry {
    type V = DirEntryView;

    open spec fn deep_view(&self) -> DirEntryView {
        self@
    }
}

/// The names of the regular files among `entries`, in listing order.
pub open spec fn regular_names(entries: Seq<DirEntryView>) -> Seq<Seq<char>> {
    entries.filter(|entry: DirEntryView| entry.is_file).map_values(|entry: DirEntryView| entry.name)
}

/// One more entry listed is one more regular name, when the entry is a
/// regular file.
pub proof fn lemma_regular_names_push(entries: Seq<DirEntryView>, entry: DirEntryView)
    ensures
        regular_names(entries.push(entry)) == if entry.is_file {
            regular_names(entries).push(entry.name)
        } else {
            regular_names(entries)
        },
{
    reveal(Seq::filter);
    let is_file = |entry: DirEntryView| entry.is_file;
    let name = |entry: DirEntryView| entry.name;
    assert(entries.push(entry).drop_last() =~= entries);
    if entry.is_file {
        assert(entries.filter(is_file).push(entry).map_values(name) =~= entries.filter(
            is_file,
        ).map_values(name).push(entry.name));
    }
}

/// An empty listing has no regular names.
pub proof fn lemma_regular_names_empty()
    ensures
        regular_names(Seq::empty()) == Seq::<Seq<char>>::empty(),
{
    reveal(Seq::filter);
    assert(regular_names(Seq::empty()) =~= Seq::<Seq<char>>::empty());
}

/// A name is among the regular names exactly when a regular entry bears
/// it, and there are no more regular names than entries.
pub proof fn lemma_regular_names(entries: Seq<DirEntryView>, name: Seq<char>)
    ensures
        regular_names(entries).len() <= entries.len(),
        regular_names(entries).contains(name) <==> exists|i: int|
            0 <= i < entries.len() && entries[i].is_file && #[trigger] entries[i].name == name,
    decreases entries.len(),
{
    if entries.len() > 0 {
        let rest = entries.drop_last();
        lemma_regular_names(rest, name);
        lemma_regular_names_push(rest, entries.last());
        assert(rest.push(entries.last()) =~= entries);
        let names = regular_names(entries);
        if names.contains(name) {
            let k = choose|k: int| 0 <= k < names.len() && names[k] == name;
            if entries.last().is_file && k == names.len() - 1 {
                assert(entries[entries.len() - 1].name == name);
            } else {
                assert(regular_names(rest)[k] == name);
                let i = choose|i: int|
                    0 <= i < rest.len() && rest[i].is_file && #[trigger] rest[i].name == name;
                assert(entries[i].name == name);
            }
        }
        if exists|i: int|
            0 <= i < entries.len() && entries[i].is_file && #[trigger] entries[i].name == name {
            let i = choose|i: int|
                0 <= i < entries.len() && entries[i].is_file && #[trigger] entries[i].name == name;
            if i == entries.len() - 1 {
                assert(names[names.len() - 1] == name);
            } else {
                assert(rest[i].name == name);
                let k = choose|k: int|
                    0 <= k < regular_names(rest).len() && regular_names(rest)[k] == name;
                assert(names[k] == name);
            }
        }
    } else {
        lemma_regular_names_empty();
        assert(entries =~= Seq::empty());
    }
}

/// The regular files of a listing: entries that are not regular files
/// (directories, sockets and the like) are left out, the order is kept.
pub fn regular_files(entries: &Vec<DirEntry>) -> (names: Vec<String>)
    ensures
        names.deep_view() == regular_names(entries.deep_view()),
{
    let mut names: Vec<String> = Vec::new();
    let mut i: usize = 0;
    proof {
        lemma_regular_names_empty();
        assert(entries.deep_view().take(0) =~= Seq::empty());
        assert(names.deep_view() =~= Seq::empty());
    }
    while i < entries.len()
        invariant
            i <= entries.len(),
            names.deep_view() == regular_names(entries.deep_view().take(i as int)),
        decreases entries.len() - i,
    {
        let ghost before = names.deep_view();
        if entries[i].is_file {
            names.push(entries[i].name.clone());
        }
        proof {
            let all = entries.deep_view();
            assert(all.take(i + 1) =~= all.take(i as int).push(entries[i as int]@));
            lemma_regular_names_push(all.take(i as int), entries[i as int]@);
            if entries[i as int].is_file {
                assert(names.deep_view() =~= before.push(entries[i as int].name@));
            } else {
                assert(names.deep_view() =~= before);
            }
        }
        i = i + 1;
    }
    proof {
        assert(entries.deep_view().take(i as int) =~= entries.deep_view());
    }
    names
}

/// Whether `list` holds a string equal to `item`.
pub fn contains(list: &Vec<String>, item: &String) -> (found: bool)
    ensures
        found == list.deep_view().contains(item@),
{
    let mut i: usize = 0;
    while i < list.len()
        invariant
            i <= list.len(),
            forall|j: int| 0 <= j < i ==> list.deep_view()[j] != item@,
        decreases list.len() - i,
    {
        if list[i] == *item {
            assert(list.deep_view()[i as int] == item@);
            return true;
        }
        i = i + 1;
    }
    false
}

} // verus!
