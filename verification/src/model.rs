//! A model of what a reconciliation pass works on: the wallpaper directory
//! and the two caches as mathematical values, the driver that performs each
//! action faithfully and without failure, and the pass that results when
//! the reconciler is run against it.

use crate::config::full_config::ConfigResolution;
use crate::path::is_file_name;
use crate::reconcile::{initial, transition, ActionView, EventView, ReconcilerView};
use crate::scan::{regular_names, DirEntryView};
use vstd::prelude::*;

verus! {

/// The three directories of a pass.
pub ghost struct World {
    /// The path of the thumbnail cache.
    pub thumbnails_dir: Seq<char>,
    /// The path of the rescaled cache.
    pub rescaled_dir: Seq<char>,
    /// The wallpaper directory, in the order in which it is listed.
    pub source: Seq<DirEntryView>,
    /// The resolution that the prober finds for each wallpaper, by name.
    pub resolution: spec_fn(Seq<char>) -> ConfigResolution,
    /// The keys that the thumbnail cache holds.
    pub thumbnails: Set<Seq<char>>,
    /// The keys that the rescaled cache holds.
    pub rescaled: Set<Seq<char>>,
    /// The listing of a cache with given content. Nothing is known of it
    /// but that its regular files are the content: the order is open, and
    /// so is what else the cache directory holds beside regular files.
    pub listing: spec_fn(Set<Seq<char>>) -> Seq<DirEntryView>,
}

impl World {
    /// The wallpapers: the names of the regular files of the wallpaper
    /// directory.
    pub open spec fn files(self) -> Seq<Seq<char>> {
        regular_names(self.source)
    }

    /// The caches are finite, every wallpaper has a plain file name, and
    /// the regular files of a cache's listing are exactly the cache's
    /// content, each listed once.
    pub open spec fn wf(self) -> bool {
        &&& self.thumbnails.finite()
        &&& self.rescaled.finite()
        &&& forall|i: int| 0 <= i < self.files().len() ==> is_file_name(#[trigger] self.files()[i])
        &&& forall|content: Set<Seq<char>>|
            content.finite() ==> regular_names(#[trigger] (self.listing)(content)).to_set()
                == content
        &&& forall|content: Set<Seq<char>>|
            content.finite() ==> regular_names(#[trigger] (self.listing)(content)).no_duplicates()
    }
}

/// What a faithful driver does with an action, and what it reports: the
/// transcoder produces the file asked for, a removal removes it, nothing
/// fails.
pub open spec fn respond(w: World, action: ActionView) -> (World, EventView) {
    match action {
        ActionView::ListSource => (w, EventView::Listed { entries: w.source }),
        ActionView::CheckThumbnail { source, key } => (
            w,
            EventView::Exists { exists: w.thumbnails.contains(key) },
        ),
        ActionView::GenerateThumbnail { source, key } => (
            World { thumbnails: w.thumbnails.insert(key), ..w },
            EventView::Done,
        ),
        ActionView::Probe { source } => (w, EventView::Probed { resolution: (w.resolution)(source) }),
        ActionView::CheckRescaled { source, key } => (
            w,
            EventView::Exists { exists: w.rescaled.contains(key) },
        ),
        ActionView::Rescale { source, native, target, key } => (
            World { rescaled: w.rescaled.insert(key), ..w },
            EventView::Done,
        ),
        ActionView::ListThumbnails => (
            w,
            EventView::Listed { entries: (w.listing)(w.thumbnails) },
        ),
        ActionView::RemoveThumbnail { key } => (
            World { thumbnails: w.thumbnails.remove(key), ..w },
            EventView::Done,
        ),
        ActionView::ListRescaled => (
            w,
            EventView::Listed { entries: (w.listing)(w.rescaled) },
        ),
        ActionView::RemoveRescaled { key } => (
            World { rescaled: w.rescaled.remove(key), ..w },
            EventView::Done,
        ),
        ActionView::Finish => (w, EventView::Done),
    }
}

/// What came of running the reconciler.
pub ghost struct Run {
    /// The directories as the run left them.
    pub world: World,
    /// The actions that were performed, in order.
    pub actions: Seq<ActionView>,
    /// Whether the reconciler reached the end of its pass.
    pub completed: bool,
}

/// The run that performs `action` and every action that the reconciler
/// answers with after it, `fuel` actions at most.
pub open spec fn drive(m: ReconcilerView, action: ActionView, w: World, fuel: nat) -> Run
    decreases fuel,
{
    if action is Finish {
        Run { world: w, actions: Seq::empty(), completed: true }
    } else if fuel == 0 {
        Run { world: w, actions: Seq::empty(), completed: false }
    } else {
        let (after, event) = respond(w, action);
        match transition(m, event) {
            (next, Ok(answer)) => {
                let rest = drive(next, answer, after, (fuel - 1) as nat);
                Run {
                    world: rest.world,
                    actions: seq![action] + rest.actions,
                    completed: rest.completed,
                }
            },
            (next, Err(error)) => Run { world: after, actions: seq![action], completed: false },
        }
    }
}

/// A pass towards `target` over `w` that may perform `fuel` actions.
pub open spec fn pass_within(w: World, target: ConfigResolution, fuel: nat) -> Run {
    match transition(initial(w.thumbnails_dir, w.rescaled_dir, target), EventView::Start) {
        (m, Ok(action)) => drive(m, action, w, fuel),
        (m, Err(error)) => Run { world: w, actions: Seq::empty(), completed: false },
    }
}

/// A pass towards `target` over `w`, with as many actions as it takes to
/// complete.
pub open spec fn pass(w: World, target: ConfigResolution) -> Run {
    pass_within(w, target, choose|fuel: nat| pass_within(w, target, fuel).completed)
}

} // verus!
