//! What a reconciliation pass guarantees, stated of the reconciler run
//! against the model of its directories.

use crate::config::full_config::ConfigResolution;
use crate::course::{
    lemma_drive_order, lemma_drive_removals, lemma_off_target_all, lemma_pass,
    lemma_unswept_finite, on_course, unswept_rescaled, unswept_thumbnails,
};
use crate::model::{pass, pass_within, World};
use crate::path::{is_file_name, joined, lemma_joined_injective, stem_of};
use crate::policy::{
    lemma_thumbnail_key_by_stem, rescaled_key_of, thumbnail_key_of, thumbnail_suffix,
};
use crate::reconcile::{
    give_up, initial, lemma_orphans_distinct, lemma_orphans_of, lemma_orphans_of_empty,
    lemma_orphans_of_push, orphans_of, transition,
    ActionView, ErrorView, EventView, Phase, ReconcilerView,
};
use crate::scan::regular_names;
use vstd::prelude::*;

verus! {

/// The thumbnail keys of `files`, in order.
pub open spec fn thumbnail_keys(files: Seq<Seq<char>>) -> Seq<Seq<char>> {
    Seq::new(files.len(), |i: int| thumbnail_key_of(files[i]))
}

/// What the thumbnail cache holds after a complete pass over `w`: the
/// thumbnail key of every wallpaper, and nothing else.
pub open spec fn reconciled_thumbnails(w: World) -> Set<Seq<char>> {
    thumbnail_keys(w.files()).to_set()
}

/// What the rescaled cache holds after a complete pass over `w`: the key of
/// every wallpaper that is not in the target resolution, the keys it held
/// before of wallpapers that are, and nothing else.
pub open spec fn reconciled_rescaled(w: World, target: ConfigResolution) -> Set<Seq<char>> {
    Set::new(
        |key: Seq<char>|
            w.files().contains(key) && ((w.resolution)(key) != target || w.rescaled.contains(key)),
    )
}

/// The caches of `w` are as a complete pass towards `target` leaves them.
pub open spec fn is_reconciled(w: World, target: ConfigResolution) -> bool {
    &&& w.thumbnails == reconciled_thumbnails(w)
    &&& w.rescaled == reconciled_rescaled(w, target)
}

/// An action that leaves the caches as they are: neither the transcoder
/// runs nor is anything removed.
pub open spec fn is_quiet(action: ActionView) -> bool {
    !(action is GenerateThumbnail || action is Rescale || action is RemoveThumbnail
        || action is RemoveRescaled)
}

/// An action of the walk over the wallpapers, in which the live keys are
/// gathered.
pub open spec fn is_walk(action: ActionView) -> bool {
    action is ListSource || action is CheckThumbnail || action is GenerateThumbnail
        || action is Probe || action is CheckRescaled || action is Rescale
}

/// An action that removes a cache entry.
pub open spec fn is_removal(action: ActionView) -> bool {
    action is RemoveThumbnail || action is RemoveRescaled
}

/// The keys that `actions` remove from the thumbnail cache, in order.
pub open spec fn removed_thumbnails(actions: Seq<ActionView>) -> Seq<Seq<char>> {
    actions.filter(|action: ActionView| action is RemoveThumbnail).map_values(
        |action: ActionView| action->RemoveThumbnail_key,
    )
}

/// The keys that `actions` remove from the rescaled cache, in order.
pub open spec fn removed_rescaled(actions: Seq<ActionView>) -> Seq<Seq<char>> {
    actions.filter(|action: ActionView| action is RemoveRescaled).map_values(
        |action: ActionView| action->RemoveRescaled_key,
    )
}

/// Every pass reconciles: on any wallpaper directory and any state of the
/// caches it runs to completion without an error, leaves the wallpaper
/// directory as it was, and leaves in the thumbnail cache exactly the
/// thumbnail key of every wallpaper, in the rescaled cache exactly the key
/// of every wallpaper that is not in the target resolution, beside the keys
/// it held before of wallpapers that are.
pub proof fn law_pass_reconciles(w: World, target: ConfigResolution)
    requires
        w.wf(),
    ensures
        pass(w, target).completed,
        pass(w, target).world.source == w.source,
        pass(w, target).world.thumbnails == reconciled_thumbnails(w),
        pass(w, target).world.rescaled == reconciled_rescaled(w, target),
        is_reconciled(pass(w, target).world, target),
        pass(w, target).world.wf(),
{
    lemma_pass(w, target);
    let after = pass(w, target).world;
    assert(reconciled_rescaled(after, target) =~= reconciled_rescaled(w, target));
    vstd::seq_lib::seq_to_set_is_finite(thumbnail_keys(w.files()));
    vstd::seq_lib::seq_to_set_is_finite(w.files());
    assert(reconciled_rescaled(w, target).subset_of(w.files().to_set()));
    vstd::set_lib::lemma_len_subset(reconciled_rescaled(w, target), w.files().to_set());
}

/// After a pass every wallpaper has its derived files and every cache
/// entry has its wallpaper: the thumbnail cache holds the thumbnail key of
/// each wallpaper, the rescaled cache the key of each wallpaper that is not
/// in the target resolution, and each entry of either cache is the key of
/// a wallpaper.
pub proof fn law_caches_match_wallpapers(w: World, target: ConfigResolution)
    requires
        w.wf(),
    ensures
        pass(w, target).completed,
        forall|i: int|
            0 <= i < w.files().len() ==> pass(w, target).world.thumbnails.contains(
                thumbnail_key_of(#[trigger] w.files()[i]),
            ),
        forall|i: int|
            0 <= i < w.files().len() && (w.resolution)(#[trigger] w.files()[i]) != target ==> pass(
                w,
                target,
            ).world.rescaled.contains(rescaled_key_of(w.files()[i])),
        forall|key: Seq<char>| #[trigger]
            pass(w, target).world.thumbnails.contains(key) ==> exists|i: int|
                0 <= i < w.files().len() && key == thumbnail_key_of(#[trigger] w.files()[i]),
        forall|key: Seq<char>| #[trigger]
            pass(w, target).world.rescaled.contains(key) ==> exists|i: int|
                0 <= i < w.files().len() && key == rescaled_key_of(#[trigger] w.files()[i]),
{
    lemma_pass(w, target);
    let files = w.files();
    let keys = thumbnail_keys(files);
    let after = pass(w, target).world;
    assert forall|i: int| 0 <= i < files.len() implies after.thumbnails.contains(
        thumbnail_key_of(#[trigger] files[i]),
    ) by {
        assert(keys[i] == thumbnail_key_of(files[i]));
    }
    assert forall|i: int|
        0 <= i < files.len() && (w.resolution)(#[trigger] files[i]) != target implies after.rescaled.contains(
        rescaled_key_of(files[i]),
    ) by {
        assert(files.contains(files[i]));
    }
    assert forall|key: Seq<char>| #[trigger] after.thumbnails.contains(key) implies exists|i: int|
        0 <= i < files.len() && key == thumbnail_key_of(#[trigger] files[i]) by {
        let i = choose|i: int| 0 <= i < keys.len() && keys[i] == key;
        assert(key == thumbnail_key_of(files[i]));
    }
    assert forall|key: Seq<char>| #[trigger] after.rescaled.contains(key) implies exists|i: int|
        0 <= i < files.len() && key == rescaled_key_of(#[trigger] files[i]) by {
        let i = choose|i: int| 0 <= i < files.len() && files[i] == key;
        assert(key == rescaled_key_of(files[i]));
    }
}

/// Fresh caches: after one pass over empty caches the thumbnail cache
/// holds one entry for each stem among the wallpapers, as many as there
/// are wallpapers when no two share a stem, and the rescaled cache holds
/// exactly the wallpapers whose resolution differs from the target.
pub proof fn law_fresh_caches(w: World, target: ConfigResolution)
    requires
        w.wf(),
        w.thumbnails == Set::<Seq<char>>::empty(),
        w.rescaled == Set::<Seq<char>>::empty(),
    ensures
        pass(w, target).completed,
        forall|key: Seq<char>|
            pass(w, target).world.thumbnails.contains(key) <==> exists|i: int|
                0 <= i < w.files().len() && key == stem_of(#[trigger] w.files()[i])
                    + thumbnail_suffix(),
        (forall|i: int, j: int|
            0 <= i < j < w.files().len() ==> stem_of(#[trigger] w.files()[i])
                != stem_of(#[trigger] w.files()[j])) ==> pass(
            w,
            target,
        ).world.thumbnails.len() == w.files().len(),
        forall|key: Seq<char>|
            pass(w, target).world.rescaled.contains(key) <==> w.files().contains(key)
                && (w.resolution)(key) != target,
{
    lemma_pass(w, target);
    let files = w.files();
    let keys = thumbnail_keys(files);
    let after = pass(w, target).world;
    assert forall|key: Seq<char>| after.thumbnails.contains(key) <==> exists|i: int|
        0 <= i < files.len() && key == stem_of(#[trigger] files[i])
            + thumbnail_suffix() by {
        if keys.contains(key) {
            let i = choose|i: int| 0 <= i < keys.len() && keys[i] == key;
            assert(key == stem_of(files[i]) + thumbnail_suffix());
        }
        if exists|i: int|
            0 <= i < files.len() && key == stem_of(#[trigger] files[i])
                + thumbnail_suffix() {
            let i = choose|i: int|
                0 <= i < files.len() && key == stem_of(#[trigger] files[i])
                    + thumbnail_suffix();
            assert(keys[i] == key);
        }
    }
    if forall|i: int, j: int|
        0 <= i < j < files.len() ==> stem_of(#[trigger] files[i])
            != stem_of(#[trigger] files[j]) {
        assert forall|i: int, j: int| 0 <= i < keys.len() && 0 <= j < keys.len() && i != j implies
            keys[i] != keys[j] by {
            lemma_thumbnail_key_by_stem(files[i], files[j]);
            if i < j {
                assert(stem_of(files[i]) != stem_of(files[j]));
            } else {
                assert(stem_of(files[j]) != stem_of(files[i]));
            }
        }
        keys.unique_seq_to_set();
    }
}

/// Idempotence: a second pass right after a first runs to completion
/// without asking for the transcoder or for a removal, and leaves both
/// caches as the first pass left them. What is derived is decided by
/// existence alone. A pass probes as it walks, so the second pass is free
/// of probes where there is no wallpaper to walk.
pub proof fn law_second_pass_is_quiet(w: World, target: ConfigResolution)
    requires
        w.wf(),
    ensures
        ({
            let first = pass(w, target);
            let second = pass(first.world, target);
            &&& first.completed
            &&& second.completed
            &&& second.world.thumbnails == first.world.thumbnails
            &&& second.world.rescaled == first.world.rescaled
            &&& forall|i: int|
                0 <= i < second.actions.len() ==> is_quiet(#[trigger] second.actions[i])
            &&& w.files().len() == 0 ==> forall|i: int|
                0 <= i < second.actions.len() ==> !(#[trigger] second.actions[i] is Probe)
        }),
{
    law_pass_reconciles(w, target);
    let first = pass(w, target);
    lemma_pass(first.world, target);
}

/// Deletion: of what a cache held before a pass, the pass removes the
/// orphans and nothing else. A thumbnail stays exactly when it is the
/// thumbnail key of a wallpaper, a rescaled copy exactly when it bears the
/// name of a wallpaper.
pub proof fn law_orphans_removed(w: World, target: ConfigResolution)
    requires
        w.wf(),
    ensures
        pass(w, target).completed,
        forall|key: Seq<char>| #[trigger]
            w.thumbnails.contains(key) ==> (pass(w, target).world.thumbnails.contains(key)
                <==> thumbnail_keys(w.files()).contains(key)),
        forall|key: Seq<char>| #[trigger]
            w.rescaled.contains(key) ==> (pass(w, target).world.rescaled.contains(key)
                <==> w.files().contains(key)),
{
    lemma_pass(w, target);
}

/// The removals of a pass are exactly the orphans, one action each: the
/// keys removed from a cache are, in the order of the cache's listing, the
/// entries that the cache held before the pass and that are the key of no
/// wallpaper, and none is removed twice.
pub proof fn law_removals_are_the_orphans(w: World, target: ConfigResolution)
    requires
        w.wf(),
    ensures
        removed_thumbnails(pass(w, target).actions) == orphans_of(
            regular_names((w.listing)(w.thumbnails + reconciled_thumbnails(w))),
            thumbnail_keys(w.files()),
        ),
        removed_rescaled(pass(w, target).actions) == orphans_of(
            regular_names((w.listing)(unswept_rescaled(w, target))),
            w.files(),
        ),
        removed_thumbnails(pass(w, target).actions).no_duplicates(),
        removed_rescaled(pass(w, target).actions).no_duplicates(),
        forall|key: Seq<char>|
            removed_thumbnails(pass(w, target).actions).contains(key) <==> w.thumbnails.contains(
                key,
            ) && !thumbnail_keys(w.files()).contains(key),
        forall|key: Seq<char>|
            removed_rescaled(pass(w, target).actions).contains(key) <==> w.rescaled.contains(key)
                && !w.files().contains(key),
{
    lemma_pass(w, target);
    let (m, answer) = transition(
        initial(w.thumbnails_dir, w.rescaled_dir, target),
        EventView::Start,
    );
    let action = ActionView::ListSource;
    assert(answer == Ok::<ActionView, ErrorView>(action));
    assert(on_course(w, target, m, action, w));
    let chosen = choose|fuel: nat| pass_within(w, target, fuel).completed;
    lemma_drive_removals(w, target, m, action, w, chosen);
    lemma_unswept_finite(w, target);
    let keys = thumbnail_keys(w.files());
    let thumbnails = regular_names((w.listing)(unswept_thumbnails(w)));
    let rescaled = regular_names((w.listing)(unswept_rescaled(w, target)));
    lemma_orphans_distinct(thumbnails, keys);
    lemma_orphans_distinct(rescaled, w.files());
    assert forall|key: Seq<char>|
        orphans_of(thumbnails, keys).contains(key) <==> w.thumbnails.contains(key)
            && !keys.contains(key) by {
        lemma_orphans_of(thumbnails, keys, key);
        assert(thumbnails.to_set().contains(key) <==> thumbnails.contains(key));
        assert(keys.to_set().contains(key) <==> keys.contains(key));
    }
    assert forall|key: Seq<char>|
        orphans_of(rescaled, w.files()).contains(key) <==> w.rescaled.contains(key)
            && !w.files().contains(key) by {
        lemma_orphans_of(rescaled, w.files(), key);
        assert(rescaled.to_set().contains(key) <==> rescaled.contains(key));
        lemma_off_target_all(w, target, key);
    }
}

/// The paths of `keys` in the directory `dir`.
pub open spec fn paths_in(dir: Seq<char>, keys: Seq<Seq<char>>) -> Seq<Seq<char>> {
    keys.map_values(|key: Seq<char>| joined(dir, key))
}

/// Keys by name are keys by path: in one cache directory an entry's path
/// is among the paths of the live keys exactly when its name is among the
/// live keys, so the sweep that compares names removes the entries at the
/// very paths that a sweep comparing paths would remove. Every name is a
/// plain file name, as the entries of a directory and the keys of
/// wallpapers are.
pub proof fn law_name_keys_are_path_keys(
    dir: Seq<char>,
    entries: Seq<Seq<char>>,
    live: Seq<Seq<char>>,
)
    requires
        forall|i: int| 0 <= i < entries.len() ==> is_file_name(#[trigger] entries[i]),
        forall|i: int| 0 <= i < live.len() ==> is_file_name(#[trigger] live[i]),
    ensures
        forall|i: int|
            0 <= i < entries.len() ==> (paths_in(dir, live).contains(
                joined(dir, #[trigger] entries[i]),
            ) <==> live.contains(entries[i])),
        orphans_of(paths_in(dir, entries), paths_in(dir, live)) == paths_in(
            dir,
            orphans_of(entries, live),
        ),
    decreases entries.len(),
{
    let by_path = paths_in(dir, live);
    assert forall|i: int| 0 <= i < entries.len() implies (by_path.contains(
        joined(dir, #[trigger] entries[i]),
    ) <==> live.contains(entries[i])) by {
        let entry = entries[i];
        if by_path.contains(joined(dir, entry)) {
            let k = choose|k: int| 0 <= k < by_path.len() && by_path[k] == joined(dir, entry);
            assert(by_path[k] == joined(dir, live[k]));
            lemma_joined_injective(dir, live[k], entry);
        }
        if live.contains(entry) {
            let k = choose|k: int| 0 <= k < live.len() && live[k] == entry;
            assert(by_path[k] == joined(dir, entry));
        }
    }
    if entries.len() == 0 {
        lemma_orphans_of_empty(live);
        lemma_orphans_of_empty(by_path);
        assert(paths_in(dir, entries) =~= Seq::<Seq<char>>::empty());
        assert(paths_in(dir, Seq::<Seq<char>>::empty()) =~= Seq::<Seq<char>>::empty());
    } else {
        let rest = entries.drop_last();
        let last = entries.last();
        assert(rest.push(last) =~= entries);
        assert(entries[entries.len() - 1] == last);
        law_name_keys_are_path_keys(dir, rest, live);
        lemma_orphans_of_push(rest, live, last);
        lemma_orphans_of_push(paths_in(dir, rest), by_path, joined(dir, last));
        assert(paths_in(dir, entries) =~= paths_in(dir, rest).push(joined(dir, last)));
        assert(paths_in(dir, orphans_of(rest, live).push(last)) =~= paths_in(
            dir,
            orphans_of(rest, live),
        ).push(joined(dir, last)));
    }
}

/// Mark before sweep: in a pass nothing is removed before every wallpaper
/// has been walked and its keys marked live. No action of the walk follows
/// a removal.
pub proof fn law_walk_before_sweep(w: World, target: ConfigResolution)
    requires
        w.wf(),
    ensures
        forall|i: int, j: int|
            0 <= i < j < pass(w, target).actions.len() && is_removal(
                #[trigger] pass(w, target).actions[i],
            ) ==> !is_walk(#[trigger] pass(w, target).actions[j]),
{
    let (m, answer) = transition(
        initial(w.thumbnails_dir, w.rescaled_dir, target),
        EventView::Start,
    );
    let action = ActionView::ListSource;
    assert(answer == Ok::<ActionView, ErrorView>(action));
    assert(on_course(w, target, m, action, w));
    let chosen = choose|fuel: nat| pass_within(w, target, fuel).completed;
    lemma_drive_order(w, target, m, action, w, chosen);
}

/// Errors are final: a step that answers with an error gives the pass up,
/// and a pass that was given up or has finished answers every event with
/// an error and stays as it is.
pub proof fn law_errors_are_final(m: ReconcilerView, event: EventView)
    ensures
        transition(m, event).1 is Err ==> transition(m, event).0 == (ReconcilerView {
            phase: Phase::Failed,
            ..m
        }),
        m.phase == Phase::Failed || m.phase == Phase::Finished ==> transition(m, event) == give_up(
            m,
            ErrorView::OutOfTurn,
        ),
{
}

} // verus!
