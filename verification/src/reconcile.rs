//! The cache reconciler: one pass that brings the thumbnail cache and the
//! rescaled cache in line with the wallpaper directory.
//!
//! The reconciler touches no file itself. It is a machine that is told what
//! happened (`Event`) and answers with what to do next (`Action`); whoever
//! drives it lists the directories, runs the transcoder and removes files.
//! A pass first walks the wallpapers, deriving what is missing and marking
//! the keys that are live, and only then sweeps each cache, removing the
//! entries whose key is not live.

use crate::config::full_config::ConfigResolution;
use crate::path::{file_name, is_file_name, join, joined, lemma_file_name_of_name};
use crate::policy::{
    needs_rescale, needs_thumbnail, rescale_needed, rescaled_key, rescaled_key_of, thumbnail_key,
    thumbnail_key_of,
};
use crate::scan::{contains, regular_files, regular_names, DirEntry, DirEntryView};
use vstd::prelude::*;

verus! {

/// Where a pass stands: what was asked for last and is awaited now.
#[derive(Clone, Copy, Debug, PartialEq, Eq, Structural)]
pub enum Phase {
    /// Nothing was asked for yet.
    Idle,
    /// The listing of the wallpaper directory.
    ListingSource,
    /// Whether the current wallpaper has a thumbnail.
    CheckingThumbnail,
    /// The thumbnail of the current wallpaper.
    GeneratingThumbnail,
    /// The resolution of the current wallpaper.
    Probing,
    /// Whether the current wallpaper has a rescaled copy.
    CheckingRescaled,
    /// The rescaled copy of the current wallpaper.
    Rescaling,
    /// The listing of the thumbnail cache.
    ListingThumbnails,
    /// The removal of the current orphan of the thumbnail cache.
    RemovingThumbnail,
    /// The listing of the rescaled cache.
    ListingRescaled,
    /// The removal of the current orphan of the rescaled cache.
    RemovingRescaled,
    /// The pass is complete.
    Finished,
    /// The pass was given up.
    Failed,
}

/// What the driver is to do next. Wallpapers are named by their file name
/// in the wallpaper directory, cache entries by their key: their file name
/// in their cache directory.
#[derive(Clone, Debug, PartialEq, Eq)]
pub enum Action {
    /// List the wallpaper directory.
    ListSource,
    /// Tell whether the thumbnail cache holds `key`, the thumbnail key of
    /// `source`.
    CheckThumbnail { source: String, key: String },
    /// Generate the thumbnail of `source` under `key`.
    GenerateThumbnail { source: String, key: String },
    /// Probe the resolution of `source`.
    Probe { source: String },
    /// Tell whether the rescaled cache holds `key`, the rescaled key of
    /// `source`.
    CheckRescaled { source: String, key: String },
    /// Rescale `source`, which is in the resolution `native`, to `target`
    /// under `key`.
    Rescale { source: String, native: ConfigResolution, target: ConfigResolution, key: String },
    /// List the thumbnail cache.
    ListThumbnails,
    /// Remove `key` from the thumbnail cache.
    RemoveThumbnail { key: String },
    /// List the rescaled cache.
    ListRescaled,
    /// Remove `key` from the rescaled cache.
    RemoveRescaled { key: String },
    /// Nothing: the pass is complete.
    Finish,
}

/// What the driver reports back.
#[derive(Clone, Debug, PartialEq, Eq)]
pub enum Event {
    /// The pass is to begin.
    Start,
    /// The directory asked for holds `entries`.
    Listed { entries: Vec<DirEntry> },
    /// Whether the cache holds the key asked about.
    Exists { exists: bool },
    /// The wallpaper asked about has this resolution.
    Probed { resolution: ConfigResolution },
    /// The file asked for was produced or removed.
    Done,
    /// What was asked for could not be done.
    Failed { reason: String },
}

/// Why a pass was given up. Every error is final: nothing is retried and
/// what was changed before stays changed.
#[derive(Clone, Debug, PartialEq, Eq)]
pub enum ReconcileError {
    /// The wallpaper directory could not be listed.
    SourceDirUnreadable,
    /// A cache directory could not be listed.
    CacheDirUnreadable,
    /// The transcoder failed to produce a thumbnail or a rescaled copy.
    TranscodeFailed(String),
    /// The prober failed to tell a wallpaper's resolution.
    ProbeFailed(String),
    /// The cache entry at this path could not be removed.
    DeletionFailed(String, String),
    /// A wallpaper's name yields no stem to key its thumbnail by.
    NoIdentity(String),
    /// The event does not answer what was asked for.
    OutOfTurn,
}

/// `Action` as a mathematical value.
pub ghost enum ActionView {
    ListSource,
    CheckThumbnail { source: Seq<char>, key: Seq<char> },
    GenerateThumbnail { source: Seq<char>, key: Seq<char> },
    Probe { source: Seq<char> },
    CheckRescaled { source: Seq<char>, key: Seq<char> },
    Rescale {
        source: Seq<char>,
        native: ConfigResolution,
        target: ConfigResolution,
        key: Seq<char>,
    },
    ListThumbnails,
    RemoveThumbnail { key: Seq<char> },
    ListRescaled,
    RemoveRescaled { key: Seq<char> },
    Finish,
}

/// `Event` as a mathematical value.
pub ghost enum EventView {
    Start,
    Listed { entries: Seq<DirEntryView> },
    Exists { exists: bool },
    Probed { resolution: ConfigResolution },
    Done,
    Failed { reason: Seq<char> },
}

/// `ReconcileError` as a mathematical value.
pub ghost enum ErrorView {
    SourceDirUnreadable,
    CacheDirUnreadable,
    TranscodeFailed(Seq<char>),
    ProbeFailed(Seq<char>),
    DeletionFailed(Seq<char>, Seq<char>),
    NoIdentity(Seq<char>),
    OutOfTurn,
}

impl View for Action {
    type V = ActionView;

    open spec fn view(&self) -> ActionView {
        match *self {
            Action::ListSource => ActionView::ListSource,
            Action::CheckThumbnail { source, key } => ActionView::CheckThumbnail {
                source: source@,
                key: key@,
            },
            Action::GenerateThumbnail { source, key } => ActionView::GenerateThumbnail {
                source: source@,
                key: key@,
            },
            Action::Probe { source } => ActionView::Probe { source: source@ },
            Action::CheckRescaled { source, key } => ActionView::CheckRescaled {
                source: source@,
                key: key@,
            },
            Action::Rescale { source, native, target, key } => ActionView::Rescale {
                source: source@,
                native,
                target,
                key: key@,
            },
            Action::ListThumbnails => ActionView::ListThumbnails,
            Action::RemoveThumbnail { key } => ActionView::RemoveThumbnail { key: key@ },
            Action::ListRescaled => ActionView::ListRescaled,
            Action::RemoveRescaled { key } => ActionView::RemoveRescaled { key: key@ },
            Action::Finish => ActionView::Finish,
        }
    }
}

impl View for Event {
    type V = EventView;

    open spec fn view(&self) -> EventView {
        match *self {
            Event::Start => EventView::Start,
            Event::Listed { entries } => EventView::Listed { entries: entries.deep_view() },
            Event::Exists { exists } => EventView::Exists { exists },
            Event::Probed { resolution } => EventView::Probed { resolution },
            Event::Done => EventView::Done,
            Event::Failed { reason } => EventView::Failed { reason: reason@ },
        }
    }
}

impl View for ReconcileError {
    type V = ErrorView;

    open spec fn view(&self) -> ErrorView {
        match *self {
            ReconcileError::SourceDirUnreadable => ErrorView::SourceDirUnreadable,
            ReconcileError::CacheDirUnreadable => ErrorView::CacheDirUnreadable,
            ReconcileError::TranscodeFailed(reason) => ErrorView::TranscodeFailed(reason@),
            ReconcileError::ProbeFailed(reason) => ErrorView::ProbeFailed(reason@),
            ReconcileError::DeletionFailed(path, reason) => ErrorView::DeletionFailed(
                path@,
                reason@,
            ),
            ReconcileError::NoIdentity(name) => ErrorView::NoIdentity(name@),
            ReconcileError::OutOfTurn => ErrorView::OutOfTurn,
        }
    }
}

/// What a step answers, as a mathematical value.
pub type Answer = Result<ActionView, ErrorView>;

/// The view of a step's result.
pub open spec fn answer_view(r: Result<Action, ReconcileError>) -> Answer {
    match r {
        Ok(action) => Ok(action@),
        Err(error) => Err(error@),
    }
}

/// The state of a pass as a mathematical value.
pub ghost struct ReconcilerView {
    /// The directory of the thumbnail cache.
    pub thumbnails_dir: Seq<char>,
    /// The directory of the rescaled cache.
    pub rescaled_dir: Seq<char>,
    /// The resolution wallpapers are rescaled to.
    pub target: ConfigResolution,
    pub phase: Phase,
    /// The wallpapers: the regular files of the wallpaper directory.
    pub files: Seq<Seq<char>>,
    /// The index of the current wallpaper, or of the current orphan.
    pub cursor: int,
    /// The resolution that the current wallpaper was found in.
    pub probed: ConfigResolution,
    /// The thumbnail keys marked live so far.
    pub live_thumbnails: Seq<Seq<char>>,
    /// The rescaled keys marked live so far.
    pub live_rescaled: Seq<Seq<char>>,
    /// The orphans of the cache that is being swept.
    pub orphans: Seq<Seq<char>>,
}

/// The state before a pass.
pub open spec fn initial(
    thumbnails_dir: Seq<char>,
    rescaled_dir: Seq<char>,
    target: ConfigResolution,
) -> ReconcilerView {
    ReconcilerView {
        thumbnails_dir,
        rescaled_dir,
        target,
        phase: Phase::Idle,
        files: Seq::empty(),
        cursor: 0,
        probed: target,
        live_thumbnails: Seq::empty(),
        live_rescaled: Seq::empty(),
        orphans: Seq::empty(),
    }
}

/// The current wallpaper or orphan exists whenever one is being worked on.
pub open spec fn well_formed(m: ReconcilerView) -> bool {
    match m.phase {
        Phase::CheckingThumbnail
        | Phase::GeneratingThumbnail
        | Phase::Probing
        | Phase::CheckingRescaled
        | Phase::Rescaling => 0 <= m.cursor < m.files.len(),
        Phase::RemovingThumbnail | Phase::RemovingRescaled => 0 <= m.cursor < m.orphans.len(),
        _ => true,
    }
}

/// The first of `names` that is no plain file name, if there is one.
pub open spec fn first_unnamed(names: Seq<Seq<char>>) -> Option<Seq<char>>
    decreases names.len(),
{
    if names.len() == 0 {
        None
    } else if !is_file_name(names.first()) {
        Some(names.first())
    } else {
        first_unnamed(names.drop_first())
    }
}

/// The orphans of a cache: its entries whose key is not live, in listing
/// order.
pub open spec fn orphans_of(entries: Seq<Seq<char>>, live: Seq<Seq<char>>) -> Seq<Seq<char>> {
    entries.filter(|key: Seq<char>| !live.contains(key))
}

/// One more entry listed is one more orphan, unless its key is live.
pub proof fn lemma_orphans_of_push(entries: Seq<Seq<char>>, live: Seq<Seq<char>>, key: Seq<char>)
    ensures
        orphans_of(entries.push(key), live) == if live.contains(key) {
            orphans_of(entries, live)
        } else {
            orphans_of(entries, live).push(key)
        },
{
    reveal(Seq::filter);
    assert(entries.push(key).drop_last() =~= entries);
}

/// An empty cache has no orphans.
pub proof fn lemma_orphans_of_empty(live: Seq<Seq<char>>)
    ensures
        orphans_of(Seq::empty(), live) == Seq::<Seq<char>>::empty(),
{
    reveal(Seq::filter);
}

/// The orphans are the entries that are not live.
pub proof fn lemma_orphans_of(entries: Seq<Seq<char>>, live: Seq<Seq<char>>, key: Seq<char>)
    ensures
        orphans_of(entries, live).contains(key) <==> entries.contains(key) && !live.contains(key),
        orphans_of(entries, live).len() <= entries.len(),
    decreases entries.len(),
{
    if entries.len() > 0 {
        let rest = entries.drop_last();
        let last = entries.last();
        lemma_orphans_of(rest, live, key);
        lemma_orphans_of_push(rest, live, last);
        assert(rest.push(last) =~= entries);
        let found = orphans_of(entries, live);
        let before = orphans_of(rest, live);
        if found.contains(key) {
            let j = choose|j: int| 0 <= j < found.len() && found[j] == key;
            if j < before.len() {
                assert(before[j] == key);
                assert(before.contains(key));
                let k = choose|k: int| 0 <= k < rest.len() && rest[k] == key;
                assert(entries[k] == key);
            } else {
                assert(entries[entries.len() - 1] == key);
            }
        }
        if entries.contains(key) && !live.contains(key) {
            let k = choose|k: int| 0 <= k < entries.len() && entries[k] == key;
            if k < rest.len() {
                assert(rest[k] == key);
                assert(before.contains(key));
                let j = choose|j: int| 0 <= j < before.len() && before[j] == key;
                assert(found[j] == key);
            } else {
                assert(found[found.len() - 1] == key);
            }
        }
    } else {
        lemma_orphans_of_empty(live);
        assert(entries =~= Seq::empty());
    }
}

/// Among entries of which none is listed twice no orphan is found twice.
pub proof fn lemma_orphans_distinct(entries: Seq<Seq<char>>, live: Seq<Seq<char>>)
    requires
        entries.no_duplicates(),
    ensures
        orphans_of(entries, live).no_duplicates(),
    decreases entries.len(),
{
    if entries.len() > 0 {
        let rest = entries.drop_last();
        let last = entries.last();
        assert(rest.push(last) =~= entries);
        lemma_orphans_distinct(rest, live);
        lemma_orphans_of_push(rest, live, last);
        lemma_orphans_of(rest, live, last);
        if rest.contains(last) {
            let k = choose|k: int| 0 <= k < rest.len() && rest[k] == last;
            assert(entries[k] == entries[entries.len() - 1]);
        }
        let before = orphans_of(rest, live);
        let found = orphans_of(entries, live);
        assert forall|i: int, j: int| 0 <= i < found.len() && 0 <= j < found.len() && i != j implies
            found[i] != found[j] by {
            if i < before.len() && j < before.len() {
                assert(found[i] == before[i] && found[j] == before[j]);
            } else if i < before.len() {
                assert(before[i] == found[i]);
                assert(before.contains(found[i]));
            } else if j < before.len() {
                assert(before[j] == found[j]);
                assert(before.contains(found[j]));
            }
        }
    } else {
        lemma_orphans_of_empty(live);
    }
}

/// The pass is given up with `error`.
pub open spec fn give_up(m: ReconcilerView, error: ErrorView) -> (ReconcilerView, Answer) {
    (ReconcilerView { phase: Phase::Failed, ..m }, Err(error))
}

/// The wallpaper at the cursor is taken up; when none is left the sweep of
/// the thumbnail cache begins.
pub open spec fn take_up_file(m: ReconcilerView) -> (ReconcilerView, Answer) {
    if 0 <= m.cursor < m.files.len() {
        (
            ReconcilerView { phase: Phase::CheckingThumbnail, ..m },
            Ok(
                ActionView::CheckThumbnail {
                    source: m.files[m.cursor],
                    key: thumbnail_key_of(m.files[m.cursor]),
                },
            ),
        )
    } else {
        (ReconcilerView { phase: Phase::ListingThumbnails, ..m }, Ok(ActionView::ListThumbnails))
    }
}

/// The current wallpaper is done with: both its keys are marked live,
/// whether its derived files were produced now or found, and the next
/// wallpaper is taken up.
pub open spec fn finish_file(m: ReconcilerView) -> (ReconcilerView, Answer) {
    let name = m.files[m.cursor];
    take_up_file(
        ReconcilerView {
            cursor: m.cursor + 1,
            live_thumbnails: m.live_thumbnails.push(thumbnail_key_of(name)),
            live_rescaled: m.live_rescaled.push(rescaled_key_of(name)),
            ..m
        },
    )
}

/// The current wallpaper, whose thumbnail is in place, is probed.
pub open spec fn probe_file(m: ReconcilerView) -> (ReconcilerView, Answer) {
    (
        ReconcilerView { phase: Phase::Probing, ..m },
        Ok(ActionView::Probe { source: m.files[m.cursor] }),
    )
}

/// The orphan at the cursor is removed; when none is left the sweep of the
/// next cache begins, or the pass ends.
pub open spec fn take_up_orphan(m: ReconcilerView) -> (ReconcilerView, Answer) {
    if 0 <= m.cursor < m.orphans.len() {
        if m.phase == Phase::RemovingThumbnail {
            (m, Ok(ActionView::RemoveThumbnail { key: m.orphans[m.cursor] }))
        } else {
            (m, Ok(ActionView::RemoveRescaled { key: m.orphans[m.cursor] }))
        }
    } else if m.phase == Phase::RemovingThumbnail {
        (ReconcilerView { phase: Phase::ListingRescaled, ..m }, Ok(ActionView::ListRescaled))
    } else {
        (ReconcilerView { phase: Phase::Finished, ..m }, Ok(ActionView::Finish))
    }
}

/// The sweep of a cache whose listing came in: its regular files whose key
/// is not in `live` are the orphans to remove.
pub open spec fn sweep(
    m: ReconcilerView,
    removing: Phase,
    entries: Seq<DirEntryView>,
    live: Seq<Seq<char>>,
) -> (ReconcilerView, Answer) {
    take_up_orphan(
        ReconcilerView {
            phase: removing,
            orphans: orphans_of(regular_names(entries), live),
            cursor: 0,
            ..m
        },
    )
}

/// One step of a pass: the state and the answer that follow from a state
/// and an event.
pub open spec fn transition(m: ReconcilerView, event: EventView) -> (ReconcilerView, Answer) {
    match (m.phase, event) {
        (Phase::Idle, EventView::Start) => (
            ReconcilerView { phase: Phase::ListingSource, ..m },
            Ok(ActionView::ListSource),
        ),
        (Phase::ListingSource, EventView::Listed { entries }) => {
            let files = regular_names(entries);
            match first_unnamed(files) {
                Some(name) => give_up(m, ErrorView::NoIdentity(name)),
                None => take_up_file(ReconcilerView { files, cursor: 0, ..m }),
            }
        },
        (Phase::ListingSource, EventView::Failed { reason }) => give_up(
            m,
            ErrorView::SourceDirUnreadable,
        ),
        (Phase::CheckingThumbnail, EventView::Exists { exists }) => {
            if !exists {
                (
                    ReconcilerView { phase: Phase::GeneratingThumbnail, ..m },
                    Ok(
                        ActionView::GenerateThumbnail {
                            source: m.files[m.cursor],
                            key: thumbnail_key_of(m.files[m.cursor]),
                        },
                    ),
                )
            } else {
                probe_file(m)
            }
        },
        (Phase::GeneratingThumbnail, EventView::Done) => probe_file(m),
        (Phase::GeneratingThumbnail, EventView::Failed { reason }) => give_up(
            m,
            ErrorView::TranscodeFailed(reason),
        ),
        (Phase::Probing, EventView::Probed { resolution }) => {
            if resolution == m.target {
                finish_file(m)
            } else {
                (
                    ReconcilerView { phase: Phase::CheckingRescaled, probed: resolution, ..m },
                    Ok(
                        ActionView::CheckRescaled {
                            source: m.files[m.cursor],
                            key: rescaled_key_of(m.files[m.cursor]),
                        },
                    ),
                )
            }
        },
        (Phase::Probing, EventView::Failed { reason }) => give_up(
            m,
            ErrorView::ProbeFailed(reason),
        ),
        (Phase::CheckingRescaled, EventView::Exists { exists }) => {
            if rescale_needed(m.probed, m.target, exists) {
                (
                    ReconcilerView { phase: Phase::Rescaling, ..m },
                    Ok(
                        ActionView::Rescale {
                            source: m.files[m.cursor],
                            native: m.probed,
                            target: m.target,
                            key: rescaled_key_of(m.files[m.cursor]),
                        },
                    ),
                )
            } else {
                finish_file(m)
            }
        },
        (Phase::Rescaling, EventView::Done) => finish_file(m),
        (Phase::Rescaling, EventView::Failed { reason }) => give_up(
            m,
            ErrorView::TranscodeFailed(reason),
        ),
        (Phase::ListingThumbnails, EventView::Listed { entries }) => sweep(
            m,
            Phase::RemovingThumbnail,
            entries,
            m.live_thumbnails,
        ),
        (Phase::ListingThumbnails, EventView::Failed { reason }) => give_up(
            m,
            ErrorView::CacheDirUnreadable,
        ),
        (Phase::RemovingThumbnail, EventView::Done) => take_up_orphan(
            ReconcilerView { cursor: m.cursor + 1, ..m },
        ),
        (Phase::RemovingThumbnail, EventView::Failed { reason }) => give_up(
            m,
            ErrorView::DeletionFailed(joined(m.thumbnails_dir, m.orphans[m.cursor]), reason),
        ),
        (Phase::ListingRescaled, EventView::Listed { entries }) => sweep(
            m,
            Phase::RemovingRescaled,
            entries,
            m.live_rescaled,
        ),
        (Phase::ListingRescaled, EventView::Failed { reason }) => give_up(
            m,
            ErrorView::CacheDirUnreadable,
        ),
        (Phase::RemovingRescaled, EventView::Done) => take_up_orphan(
            ReconcilerView { cursor: m.cursor + 1, ..m },
        ),
        (Phase::RemovingRescaled, EventView::Failed { reason }) => give_up(
            m,
            ErrorView::DeletionFailed(joined(m.rescaled_dir, m.orphans[m.cursor]), reason),
        ),
        _ => give_up(m, ErrorView::OutOfTurn),
    }
}

/// The state of one reconciliation pass.
pub struct Reconciler {
    thumbnails_dir: String,
    rescaled_dir: String,
    target: ConfigResolution,
    phase: Phase,
    files: Vec<String>,
    cursor: usize,
    probed: ConfigResolution,
    live_thumbnails: Vec<String>,
    live_rescaled: Vec<String>,
    orphans: Vec<String>,
}

impl View for Reconciler {
    type V = ReconcilerView;

    closed spec fn view(&self) -> ReconcilerView {
        ReconcilerView {
            thumbnails_dir: self.thumbnails_dir@,
            rescaled_dir: self.rescaled_dir@,
            target: self.target,
            phase: self.phase,
            files: self.files.deep_view(),
            cursor: self.cursor as int,
            probed: self.probed,
            live_thumbnails: self.live_thumbnails.deep_view(),
            live_rescaled: self.live_rescaled.deep_view(),
            orphans: self.orphans.deep_view(),
        }
    }
}

/// The first of `names` that is no plain file name.
fn find_unnamed(names: &Vec<String>) -> (r: Option<String>)
    ensures
        r.deep_view() == first_unnamed(names.deep_view()),
{
    let mut i: usize = 0;
    proof {
        assert(names.deep_view().skip(0) =~= names.deep_view());
    }
    while i < names.len()
        invariant
            i <= names.len(),
            first_unnamed(names.deep_view()) == first_unnamed(names.deep_view().skip(i as int)),
        decreases names.len() - i,
    {
        let ghost rest = names.deep_view().skip(i as int);
        proof {
            assert(rest.first() == names[i as int]@);
            assert(rest.drop_first() =~= names.deep_view().skip(i + 1));
            lemma_file_name_of_name(names[i as int]@);
        }
        let plain = match file_name(names[i].as_str()) {
            Some(last) => last == names[i],
            None => false,
        };
        if !plain {
            return Some(names[i].clone());
        }
        i = i + 1;
    }
    None
}

/// The entries of `names` that `live` does not hold.
fn orphans(names: &Vec<String>, live: &Vec<String>) -> (r: Vec<String>)
    ensures
        r.deep_view() == orphans_of(names.deep_view(), live.deep_view()),
{
    let mut r: Vec<String> = Vec::new();
    let mut i: usize = 0;
    proof {
        lemma_orphans_of_empty(live.deep_view());
        assert(names.deep_view().take(0) =~= Seq::empty());
        assert(r.deep_view() =~= Seq::empty());
    }
    while i < names.len()
        invariant
            i <= names.len(),
            r.deep_view() == orphans_of(names.deep_view().take(i as int), live.deep_view()),
        decreases names.len() - i,
    {
        let ghost before = r.deep_view();
        let is_live = contains(live, &names[i]);
        if !is_live {
            r.push(names[i].clone());
        }
        proof {
            let all = names.deep_view();
            assert(all.take(i + 1) =~= all.take(i as int).push(names[i as int]@));
            lemma_orphans_of_push(all.take(i as int), live.deep_view(), names[i as int]@);
            if is_live {
                assert(r.deep_view() =~= before);
            } else {
                assert(r.deep_view() =~= before.push(names[i as int]@));
            }
        }
        i = i + 1;
    }
    proof {
        assert(names.deep_view().take(i as int) =~= names.deep_view());
    }
    r
}

impl Reconciler {
    /// Whether the state is well formed; every state that `new` and `step`
    /// give is.
    pub closed spec fn wf(&self) -> bool {
        well_formed(self@)
    }

    /// A pass over the caches in the directories `thumbnails_dir` and
    /// `rescaled_dir` that reconciles towards `target`, not yet begun.
    pub fn new(thumbnails_dir: &str, rescaled_dir: &str, target: ConfigResolution) -> (r:
        Reconciler)
        ensures
            r@ == initial(thumbnails_dir@, rescaled_dir@, target),
            r.wf(),
    {
        let r = Reconciler {
            thumbnails_dir: thumbnails_dir.to_owned(),
            rescaled_dir: rescaled_dir.to_owned(),
            target,
            phase: Phase::Idle,
            files: Vec::new(),
            cursor: 0,
            probed: target,
            live_thumbnails: Vec::new(),
            live_rescaled: Vec::new(),
            orphans: Vec::new(),
        };
        proof {
            assert(r.files.deep_view() =~= Seq::empty());
            assert(r.live_thumbnails.deep_view() =~= Seq::empty());
            assert(r.live_rescaled.deep_view() =~= Seq::empty());
            assert(r.orphans.deep_view() =~= Seq::empty());
        }
        r
    }

    /// Where the pass stands.
    pub fn phase(&self) -> (phase: Phase)
        ensures
            phase == self@.phase,
    {
        self.phase
    }

    fn give_up(&mut self, error: ReconcileError) -> (r: Result<Action, ReconcileError>)
        ensures
            (final(self)@, answer_view(r)) == give_up(old(self)@, error@),
            final(self).wf(),
    {
        self.phase = Phase::Failed;
        Err(error)
    }

    fn take_up_file(&mut self) -> (r: Result<Action, ReconcileError>)
        ensures
            (final(self)@, answer_view(r)) == take_up_file(old(self)@),
            final(self).wf(),
    {
        if self.cursor < self.files.len() {
            self.phase = Phase::CheckingThumbnail;
            Ok(
                Action::CheckThumbnail {
                    source: self.files[self.cursor].clone(),
                    key: thumbnail_key(self.files[self.cursor].as_str()),
                },
            )
        } else {
            self.phase = Phase::ListingThumbnails;
            Ok(Action::ListThumbnails)
        }
    }

    fn finish_file(&mut self) -> (r: Result<Action, ReconcileError>)
        requires
            0 <= old(self)@.cursor < old(self)@.files.len(),
        ensures
            (final(self)@, answer_view(r)) == finish_file(old(self)@),
            final(self).wf(),
    {
        let ghost before = self@;
        let thumbnail = thumbnail_key(self.files[self.cursor].as_str());
        let rescaled = rescaled_key(self.files[self.cursor].as_str());
        self.live_thumbnails.push(thumbnail);
        self.live_rescaled.push(rescaled);
        assert(self.cursor < self.files.len());
        self.cursor = self.cursor + 1;
        proof {
            let name = before.files[before.cursor];
            assert(self.live_thumbnails.deep_view() =~= before.live_thumbnails.push(
                thumbnail_key_of(name),
            ));
            assert(self.live_rescaled.deep_view() =~= before.live_rescaled.push(
                rescaled_key_of(name),
            ));
        }
        self.take_up_file()
    }

    fn probe_file(&mut self) -> (r: Result<Action, ReconcileError>)
        requires
            0 <= old(self)@.cursor < old(self)@.files.len(),
        ensures
            (final(self)@, answer_view(r)) == probe_file(old(self)@),
            final(self).wf(),
    {
        self.phase = Phase::Probing;
        Ok(Action::Probe { source: self.files[self.cursor].clone() })
    }

    fn take_up_orphan(&mut self) -> (r: Result<Action, ReconcileError>)
        requires
            old(self)@.phase == Phase::RemovingThumbnail || old(self)@.phase
                == Phase::RemovingRescaled,
        ensures
            (final(self)@, answer_view(r)) == take_up_orphan(old(self)@),
            final(self).wf(),
    {
        let thumbnails = match self.phase {
            Phase::RemovingThumbnail => true,
            _ => false,
        };
        if self.cursor < self.orphans.len() {
            let key = self.orphans[self.cursor].clone();
            if thumbnails {
                Ok(Action::RemoveThumbnail { key })
            } else {
                Ok(Action::RemoveRescaled { key })
            }
        } else if thumbnails {
            self.phase = Phase::ListingRescaled;
            Ok(Action::ListRescaled)
        } else {
            self.phase = Phase::Finished;
            Ok(Action::Finish)
        }
    }

    fn sweep(&mut self, removing: Phase, entries: &Vec<DirEntry>) -> (r: Result<
        Action,
        ReconcileError,
    >)
        requires
            removing == Phase::RemovingThumbnail || removing == Phase::RemovingRescaled,
        ensures
            (final(self)@, answer_view(r)) == sweep(
                old(self)@,
                removing,
                entries.deep_view(),
                if removing == Phase::RemovingThumbnail {
                    old(self)@.live_thumbnails
                } else {
                    old(self)@.live_rescaled
                },
            ),
            final(self).wf(),
    {
        let names = regular_files(entries);
        let thumbnails = match removing {
            Phase::RemovingThumbnail => true,
            _ => false,
        };
        self.orphans = if thumbnails {
            orphans(&names, &self.live_thumbnails)
        } else {
            orphans(&names, &self.live_rescaled)
        };
        self.phase = removing;
        self.cursor = 0;
        self.take_up_orphan()
    }

    /// Takes the pass one step on: `event` reports what came of the action
    /// that the step before answered with (`Event::Start` for the first
    /// step), and the answer is the action to perform next. An error ends
    /// the pass, and so does `Action::Finish`; any event after that is out
    /// of turn.
    pub fn step(&mut self, event: Event) -> (r: Result<Action, ReconcileError>)
        requires
            old(self).wf(),
        ensures
            (final(self)@, answer_view(r)) == transition(old(self)@, event@),
            final(self).wf(),
    {
        match (self.phase, event) {
            (Phase::Idle, Event::Start) => {
                self.phase = Phase::ListingSource;
                Ok(Action::ListSource)
            },
            (Phase::ListingSource, Event::Listed { entries }) => {
                let files = regular_files(&entries);
                match find_unnamed(&files) {
                    Some(name) => self.give_up(ReconcileError::NoIdentity(name)),
                    None => {
                        self.files = files;
                        self.cursor = 0;
                        self.take_up_file()
                    },
                }
            },
            (Phase::ListingSource, Event::Failed { reason }) => self.give_up(
                ReconcileError::SourceDirUnreadable,
            ),
            (Phase::CheckingThumbnail, Event::Exists { exists }) => {
                if needs_thumbnail(exists) {
                    self.phase = Phase::GeneratingThumbnail;
                    Ok(
                        Action::GenerateThumbnail {
                            source: self.files[self.cursor].clone(),
                            key: thumbnail_key(self.files[self.cursor].as_str()),
                        },
                    )
                } else {
                    self.probe_file()
                }
            },
            (Phase::GeneratingThumbnail, Event::Done) => self.probe_file(),
            (Phase::GeneratingThumbnail, Event::Failed { reason }) => self.give_up(
                ReconcileError::TranscodeFailed(reason),
            ),
            (Phase::Probing, Event::Probed { resolution }) => {
                if resolution == self.target {
                    self.finish_file()
                } else {
                    self.phase = Phase::CheckingRescaled;
                    self.probed = resolution;
                    Ok(
                        Action::CheckRescaled {
                            source: self.files[self.cursor].clone(),
                            key: rescaled_key(self.files[self.cursor].as_str()),
                        },
                    )
                }
            },
            (Phase::Probing, Event::Failed { reason }) => self.give_up(
                ReconcileError::ProbeFailed(reason),
            ),
            (Phase::CheckingRescaled, Event::Exists { exists }) => {
                if needs_rescale(self.probed, self.target, exists) {
                    self.phase = Phase::Rescaling;
                    Ok(
                        Action::Rescale {
                            source: self.files[self.cursor].clone(),
                            native: self.probed,
                            target: self.target,
                            key: rescaled_key(self.files[self.cursor].as_str()),
                        },
                    )
                } else {
                    self.finish_file()
                }
            },
            (Phase::Rescaling, Event::Done) => self.finish_file(),
            (Phase::Rescaling, Event::Failed { reason }) => self.give_up(
                ReconcileError::TranscodeFailed(reason),
            ),
            (Phase::ListingThumbnails, Event::Listed { entries }) => self.sweep(
                Phase::RemovingThumbnail,
                &entries,
            ),
            (Phase::ListingThumbnails, Event::Failed { reason }) => self.give_up(
                ReconcileError::CacheDirUnreadable,
            ),
            (Phase::RemovingThumbnail, Event::Done) => {
                assert(self.cursor < self.orphans.len());
                self.cursor = self.cursor + 1;
                self.take_up_orphan()
            },
            (Phase::RemovingThumbnail, Event::Failed { reason }) => {
                let path = join(self.thumbnails_dir.as_str(), self.orphans[self.cursor].as_str());
                self.give_up(ReconcileError::DeletionFailed(path, reason))
            },
            (Phase::ListingRescaled, Event::Listed { entries }) => self.sweep(
                Phase::RemovingRescaled,
                &entries,
            ),
            (Phase::ListingRescaled, Event::Failed { reason }) => self.give_up(
                ReconcileError::CacheDirUnreadable,
            ),
            (Phase::RemovingRescaled, Event::Done) => {
                assert(self.cursor < self.orphans.len());
                self.cursor = self.cursor + 1;
                self.take_up_orphan()
            },
            (Phase::RemovingRescaled, Event::Failed { reason }) => {
                let path = join(self.rescaled_dir.as_str(), self.orphans[self.cursor].as_str());
                self.give_up(ReconcileError::DeletionFailed(path, reason))
            },
            _ => self.give_up(ReconcileError::OutOfTurn),
        }
    }
}

} // verus!
