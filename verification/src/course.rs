//! The course of a pass: what holds of the reconciler and the directories
//! at every step of a run, and why every run comes to its end. The laws of
//! the pass rest on this.

use crate::config::full_config::ConfigResolution;
use crate::laws::{
    is_quiet, is_reconciled, is_removal, is_walk, reconciled_rescaled, reconciled_thumbnails,
    removed_rescaled, removed_thumbnails, thumbnail_keys,
};
use crate::model::{drive, pass, pass_within, respond, World};
use crate::path::is_file_name;
use crate::policy::{rescaled_key_of, thumbnail_key_of};
use crate::reconcile::{
    finish_file, first_unnamed, initial, lemma_orphans_of, orphans_of, take_up_orphan, transition,
    ActionView, ErrorView, EventView, Phase, ReconcilerView,
};
use crate::scan::regular_names;
use vstd::prelude::*;

verus! {

/// The wallpapers among the first `upto` whose resolution is not `target`.
pub open spec fn off_target(w: World, target: ConfigResolution, upto: int) -> Set<Seq<char>> {
    Set::new(
        |name: Seq<char>|
            exists|j: int|
                0 <= j < upto && j < w.files().len() && #[trigger] w.files()[j] == name
                    && (w.resolution)(name) != target,
    )
}

/// One more wallpaper walked is one more thumbnail key.
pub(crate) proof fn lemma_thumbnail_keys_take(files: Seq<Seq<char>>, i: int)
    requires
        0 <= i < files.len(),
    ensures
        thumbnail_keys(files.take(i + 1)) == thumbnail_keys(files.take(i)).push(
            thumbnail_key_of(files[i]),
        ),
        thumbnail_keys(files.take(i + 1)).to_set() == thumbnail_keys(files.take(i)).to_set().insert(
            thumbnail_key_of(files[i]),
        ),
        thumbnail_keys(files.take(i)).to_set().finite(),
{
    let keys = thumbnail_keys(files);
    let shorter = thumbnail_keys(files.take(i));
    let longer = thumbnail_keys(files.take(i + 1));
    assert(keys.take(i) =~= shorter);
    assert(keys.take(i + 1) =~= longer);
    assert(longer =~= shorter.push(thumbnail_key_of(files[i])));
    lemma_take_push_set(keys, i);
    vstd::seq_lib::seq_to_set_is_finite(shorter);
}

/// One more wallpaper walked is one more rescaled copy wanted, when it is
/// not in the target resolution.
pub(crate) proof fn lemma_off_target_step(w: World, target: ConfigResolution, i: int)
    requires
        0 <= i < w.files().len(),
    ensures
        off_target(w, target, i + 1) == if (w.resolution)(w.files()[i]) != target {
            off_target(w, target, i).insert(w.files()[i])
        } else {
            off_target(w, target, i)
        },
{
    let files = w.files();
    let next = off_target(w, target, i + 1);
    let now = off_target(w, target, i);
    let expected = if (w.resolution)(files[i]) != target {
        now.insert(files[i])
    } else {
        now
    };
    assert forall|name: Seq<char>| next.contains(name) <==> expected.contains(name) by {
        if next.contains(name) {
            let j = choose|j: int|
                0 <= j < i + 1 && j < files.len() && #[trigger] files[j] == name
                    && (w.resolution)(name) != target;
            if j < i {
                assert(files[j] == name);
            }
        }
        if now.contains(name) {
            let j = choose|j: int|
                0 <= j < i && j < files.len() && #[trigger] files[j] == name && (w.resolution)(name)
                    != target;
            assert(files[j] == name);
        }
        if name == files[i] && (w.resolution)(files[i]) != target {
            assert(files[i] == name);
        }
    }
    assert(next =~= expected);
}

/// After the walk the wallpapers that are off target are those whose
/// resolution is not the target.
pub(crate) proof fn lemma_off_target_all(w: World, target: ConfigResolution, key: Seq<char>)
    ensures
        off_target(w, target, w.files().len() as int).contains(key) <==> w.files().contains(key) && (
        w.resolution)(key) != target,
{
    let files = w.files();
    if off_target(w, target, files.len() as int).contains(key) {
        let j = choose|j: int|
            0 <= j < files.len() && j < files.len() && #[trigger] files[j] == key && (
            w.resolution)(key) != target;
        assert(files.contains(key));
    }
    if files.contains(key) && (w.resolution)(key) != target {
        let j = choose|j: int| 0 <= j < files.len() && files[j] == key;
        assert(files[j] == key);
    }
}

/// Finitely many wallpapers are off target.
pub(crate) proof fn lemma_off_target_finite(w: World, target: ConfigResolution, i: int)
    requires
        0 <= i <= w.files().len(),
    ensures
        off_target(w, target, i).finite(),
    decreases i,
{
    if i == 0 {
        lemma_off_target_step_zero(w, target);
    } else {
        lemma_off_target_finite(w, target, i - 1);
        lemma_off_target_step(w, target, i - 1);
    }
}

/// Before the walk no wallpaper is known to be off target.
pub(crate) proof fn lemma_off_target_step_zero(w: World, target: ConfigResolution)
    ensures
        off_target(w, target, 0) == Set::<Seq<char>>::empty(),
{
    assert(off_target(w, target, 0) =~= Set::<Seq<char>>::empty());
}

/// Where every name is a plain file name none is unnamed.
pub(crate) proof fn lemma_all_named(names: Seq<Seq<char>>)
    requires
        forall|i: int| 0 <= i < names.len() ==> is_file_name(#[trigger] names[i]),
    ensures
        first_unnamed(names) is None,
    decreases names.len(),
{
    if names.len() > 0 {
        assert(is_file_name(names[0]));
        let rest = names.drop_first();
        assert forall|i: int| 0 <= i < rest.len() implies is_file_name(#[trigger] rest[i]) by {
            assert(rest[i] == names[i + 1]);
        }
        lemma_all_named(rest);
    }
}

/// Everything that the thumbnail cache of `w` holds while the wallpapers
/// are walked: what it held before and every key that is live.
pub open spec fn unswept_thumbnails(w: World) -> Set<Seq<char>> {
    w.thumbnails + reconciled_thumbnails(w)
}

/// Everything that the rescaled cache of `w` holds while the wallpapers are
/// walked.
pub open spec fn unswept_rescaled(w: World, target: ConfigResolution) -> Set<Seq<char>> {
    w.rescaled + off_target(w, target, w.files().len() as int)
}

/// The orphans that the sweep of the thumbnail cache finds.
pub open spec fn thumbnail_orphans(w: World) -> Seq<Seq<char>> {
    orphans_of(regular_names((w.listing)(unswept_thumbnails(w))), thumbnail_keys(w.files()))
}

/// The orphans that the sweep of the rescaled cache finds.
pub open spec fn rescaled_orphans(w: World, target: ConfigResolution) -> Seq<Seq<char>> {
    orphans_of(regular_names((w.listing)(unswept_rescaled(w, target))), w.files())
}

/// The reconciler is at wallpaper `m.cursor` of a pass that began on `w0`:
/// the keys of the wallpapers before it are live and their derived files
/// in place; `done` is 1 when the thumbnail of the current wallpaper is in
/// place too, and 0 otherwise.
pub open spec fn walking(
    w0: World,
    target: ConfigResolution,
    m: ReconcilerView,
    w: World,
    done: int,
) -> bool {
    let files = w0.files();
    let i = m.cursor;
    &&& m.files == files
    &&& 0 <= i < files.len()
    &&& m.live_thumbnails == thumbnail_keys(files.take(i))
    &&& m.live_rescaled == files.take(i)
    &&& w.thumbnails == w0.thumbnails + thumbnail_keys(files.take(i + done)).to_set()
    &&& w.rescaled == w0.rescaled + off_target(w0, target, i)
}

/// The reconciler has walked every wallpaper of `w0`.
pub open spec fn walked(w0: World, m: ReconcilerView) -> bool {
    &&& m.files == w0.files()
    &&& m.live_thumbnails == thumbnail_keys(w0.files())
    &&& m.live_rescaled == w0.files()
}

/// What holds throughout a pass that began on `w0`, of the reconciler's
/// state `m`, the action `action` that it answered with last, and the
/// directories `w` on which that action is about to be performed.
pub open spec fn on_course(
    w0: World,
    target: ConfigResolution,
    m: ReconcilerView,
    action: ActionView,
    w: World,
) -> bool {
    let files = w0.files();
    let current = files[m.cursor];
    &&& w0.wf()
    &&& w.source == w0.source
    &&& w.resolution == w0.resolution
    &&& w.listing == w0.listing
    &&& m.target == target
    &&& match m.phase {
        Phase::Idle | Phase::Failed => false,
        Phase::ListingSource => {
            &&& action == ActionView::ListSource
            &&& w.thumbnails == w0.thumbnails
            &&& w.rescaled == w0.rescaled
            &&& m.live_thumbnails == Seq::<Seq<char>>::empty()
            &&& m.live_rescaled == Seq::<Seq<char>>::empty()
        },
        Phase::CheckingThumbnail => {
            &&& walking(w0, target, m, w, 0)
            &&& action == ActionView::CheckThumbnail {
                source: current,
                key: thumbnail_key_of(current),
            }
        },
        Phase::GeneratingThumbnail => {
            &&& walking(w0, target, m, w, 0)
            &&& action == ActionView::GenerateThumbnail {
                source: current,
                key: thumbnail_key_of(current),
            }
            &&& !w.thumbnails.contains(thumbnail_key_of(current))
        },
        Phase::Probing => {
            &&& walking(w0, target, m, w, 1)
            &&& action == ActionView::Probe { source: current }
        },
        Phase::CheckingRescaled => {
            &&& walking(w0, target, m, w, 1)
            &&& action == ActionView::CheckRescaled {
                source: current,
                key: rescaled_key_of(current),
            }
            &&& m.probed == (w0.resolution)(current)
            &&& (w0.resolution)(current) != target
        },
        Phase::Rescaling => {
            &&& walking(w0, target, m, w, 1)
            &&& action == ActionView::Rescale {
                source: current,
                native: (w0.resolution)(current),
                target,
                key: rescaled_key_of(current),
            }
            &&& m.probed == (w0.resolution)(current)
            &&& (w0.resolution)(current) != target
            &&& !w.rescaled.contains(current)
        },
        Phase::ListingThumbnails => {
            &&& walked(w0, m)
            &&& action == ActionView::ListThumbnails
            &&& w.thumbnails == unswept_thumbnails(w0)
            &&& w.rescaled == unswept_rescaled(w0, target)
        },
        Phase::RemovingThumbnail => {
            &&& walked(w0, m)
            &&& m.orphans == thumbnail_orphans(w0)
            &&& 0 <= m.cursor < m.orphans.len()
            &&& action == ActionView::RemoveThumbnail { key: m.orphans[m.cursor] }
            &&& w.thumbnails == unswept_thumbnails(w0).difference(
                m.orphans.take(m.cursor).to_set(),
            )
            &&& w.rescaled == unswept_rescaled(w0, target)
        },
        Phase::ListingRescaled => {
            &&& walked(w0, m)
            &&& action == ActionView::ListRescaled
            &&& w.thumbnails == reconciled_thumbnails(w0)
            &&& w.rescaled == unswept_rescaled(w0, target)
        },
        Phase::RemovingRescaled => {
            &&& walked(w0, m)
            &&& m.orphans == rescaled_orphans(w0, target)
            &&& 0 <= m.cursor < m.orphans.len()
            &&& action == ActionView::RemoveRescaled { key: m.orphans[m.cursor] }
            &&& w.thumbnails == reconciled_thumbnails(w0)
            &&& w.rescaled == unswept_rescaled(w0, target).difference(
                m.orphans.take(m.cursor).to_set(),
            )
        },
        Phase::Finished => {
            &&& action == ActionView::Finish
            &&& w.thumbnails == reconciled_thumbnails(w0)
            &&& w.rescaled == reconciled_rescaled(w0, target)
        },
    }
}

/// A bound on the actions that are still to be performed.
pub open spec fn remaining(w0: World, target: ConfigResolution, m: ReconcilerView) -> int {
    let n = w0.files().len() as int;
    let thumbnails = thumbnail_orphans(w0).len() as int;
    let rescaled = rescaled_orphans(w0, target).len() as int;
    let sweeps = thumbnails + rescaled + 2;
    match m.phase {
        Phase::ListingSource => 5 * n + sweeps + 1,
        Phase::CheckingThumbnail => 5 * (n - m.cursor) + sweeps,
        Phase::GeneratingThumbnail => 5 * (n - m.cursor) + sweeps - 1,
        Phase::Probing => 5 * (n - m.cursor) + sweeps - 2,
        Phase::CheckingRescaled => 5 * (n - m.cursor) + sweeps - 3,
        Phase::Rescaling => 5 * (n - m.cursor) + sweeps - 4,
        Phase::ListingThumbnails => sweeps,
        Phase::RemovingThumbnail => thumbnails - m.cursor + rescaled + 1,
        Phase::ListingRescaled => rescaled + 1,
        Phase::RemovingRescaled => rescaled - m.cursor,
        _ => 0,
    }
}

/// What the caches hold after the walk is finite, and is what their
/// listings hold.
pub(crate) proof fn lemma_unswept_finite(w0: World, target: ConfigResolution)
    requires
        w0.wf(),
    ensures
        unswept_thumbnails(w0).finite(),
        unswept_rescaled(w0, target).finite(),
        regular_names((w0.listing)(unswept_thumbnails(w0))).to_set() == unswept_thumbnails(w0),
        regular_names((w0.listing)(unswept_rescaled(w0, target))).to_set() == unswept_rescaled(
            w0,
            target,
        ),
{
    vstd::seq_lib::seq_to_set_is_finite(thumbnail_keys(w0.files()));
    lemma_off_target_finite(w0, target, w0.files().len() as int);
}

/// When the current wallpaper is done with, the pass is on course at the
/// next wallpaper, or at the sweep of the thumbnail cache.
pub(crate) proof fn lemma_file_finished(
    w0: World,
    target: ConfigResolution,
    m: ReconcilerView,
    w: World,
)
    requires
        w0.wf(),
        w.source == w0.source,
        w.resolution == w0.resolution,
        w.listing == w0.listing,
        m.target == target,
        m.files == w0.files(),
        0 <= m.cursor < m.files.len(),
        m.live_thumbnails == thumbnail_keys(w0.files().take(m.cursor)),
        m.live_rescaled == w0.files().take(m.cursor),
        w.thumbnails == w0.thumbnails + thumbnail_keys(w0.files().take(m.cursor + 1)).to_set(),
        w.rescaled == w0.rescaled + off_target(w0, target, m.cursor + 1),
    ensures
        ({
            let (next, answer) = finish_file(m);
            &&& answer matches Ok(action) && on_course(w0, target, next, action, w)
            &&& 0 <= remaining(w0, target, next) <= 5 * (w0.files().len() - m.cursor - 1)
                + thumbnail_orphans(w0).len() + rescaled_orphans(w0, target).len() + 2
        }),
{
    let files = w0.files();
    let i = m.cursor;
    let (next, answer) = finish_file(m);
    lemma_thumbnail_keys_take(files, i);
    assert(next.live_rescaled =~= files.take(i + 1));
    assert(next.live_thumbnails == thumbnail_keys(files.take(i + 1)));
    if i + 1 < files.len() {
        assert(walking(w0, target, next, w, 0));
    } else {
        assert(files.take(i + 1) =~= files);
    }
}

/// Once a cache's orphans are known, the pass is on course at the orphan
/// at the cursor, or past the sweep when none is left.
pub(crate) proof fn lemma_orphan_taken_up(
    w0: World,
    target: ConfigResolution,
    m: ReconcilerView,
    w: World,
)
    requires
        w0.wf(),
        w.source == w0.source,
        w.resolution == w0.resolution,
        w.listing == w0.listing,
        m.target == target,
        walked(w0, m),
        0 <= m.cursor <= m.orphans.len(),
        m.phase == Phase::RemovingThumbnail ==> {
            &&& m.orphans == thumbnail_orphans(w0)
            &&& w.thumbnails == unswept_thumbnails(w0).difference(
                m.orphans.take(m.cursor).to_set(),
            )
            &&& w.rescaled == unswept_rescaled(w0, target)
        },
        m.phase == Phase::RemovingRescaled ==> {
            &&& m.orphans == rescaled_orphans(w0, target)
            &&& w.thumbnails == reconciled_thumbnails(w0)
            &&& w.rescaled == unswept_rescaled(w0, target).difference(
                m.orphans.take(m.cursor).to_set(),
            )
        },
        m.phase == Phase::RemovingThumbnail || m.phase == Phase::RemovingRescaled,
    ensures
        ({
            let (next, answer) = take_up_orphan(m);
            &&& answer matches Ok(action) && on_course(w0, target, next, action, w)
            &&& 0 <= remaining(w0, target, next) <= (if m.phase == Phase::RemovingThumbnail {
                thumbnail_orphans(w0).len() - m.cursor + rescaled_orphans(w0, target).len() + 1
            } else {
                rescaled_orphans(w0, target).len() - m.cursor
            })
        }),
{
    lemma_unswept_finite(w0, target);
    let files = w0.files();
    let keys = thumbnail_keys(files);
    if m.cursor >= m.orphans.len() {
        assert(m.orphans.take(m.cursor) =~= m.orphans);
        if m.phase == Phase::RemovingThumbnail {
            let all = unswept_thumbnails(w0);
            let listed = regular_names((w0.listing)(all));
            assert forall|key: Seq<char>| w.thumbnails.contains(key) <==> reconciled_thumbnails(
                w0,
            ).contains(key) by {
                lemma_orphans_of(listed, keys, key);
                assert(listed.to_set().contains(key) <==> listed.contains(key));
                assert(keys.to_set().contains(key) <==> keys.contains(key));
            }
            assert(w.thumbnails =~= reconciled_thumbnails(w0));
        } else {
            let all = unswept_rescaled(w0, target);
            let listed = regular_names((w0.listing)(all));
            assert forall|key: Seq<char>| w.rescaled.contains(key) <==> reconciled_rescaled(
                w0,
                target,
            ).contains(key) by {
                lemma_orphans_of(listed, files, key);
                assert(listed.to_set().contains(key) <==> listed.contains(key));
                lemma_off_target_all(w0, target, key);
            }
            assert(w.rescaled =~= reconciled_rescaled(w0, target));
        }
    }
}

/// One action performed faithfully keeps the pass on course, without
/// error, and brings it nearer to its end.
pub proof fn lemma_step(
    w0: World,
    target: ConfigResolution,
    m: ReconcilerView,
    action: ActionView,
    w: World,
)
    requires
        on_course(w0, target, m, action, w),
        !(action is Finish),
    ensures
        ({
            let (after, event) = respond(w, action);
            let (next, answer) = transition(m, event);
            &&& answer matches Ok(following) && on_course(w0, target, next, following, after)
            &&& 0 <= remaining(w0, target, next) < remaining(w0, target, m)
        }),
{
    let files = w0.files();
    let (after, event) = respond(w, action);
    let (next, answer) = transition(m, event);
    lemma_unswept_finite(w0, target);
    match m.phase {
        Phase::ListingSource => {
            lemma_all_named(files);
            assert(thumbnail_keys(files.take(0)) =~= Seq::<Seq<char>>::empty());
            assert(files.take(0) =~= Seq::<Seq<char>>::empty());
            lemma_off_target_step_zero(w0, target);
            assert(thumbnail_keys(files.take(0)).to_set() =~= Set::<Seq<char>>::empty());
            assert(w0.thumbnails + Set::<Seq<char>>::empty() =~= w0.thumbnails);
            assert(w0.rescaled + Set::<Seq<char>>::empty() =~= w0.rescaled);
            if files.len() == 0 {
                assert(thumbnail_keys(files) =~= Seq::<Seq<char>>::empty());
                assert(files =~= Seq::<Seq<char>>::empty());
            }
        },
        Phase::CheckingThumbnail => {
            lemma_thumbnail_keys_take(files, m.cursor);
            if w.thumbnails.contains(thumbnail_key_of(files[m.cursor])) {
                assert(w.thumbnails =~= w0.thumbnails + thumbnail_keys(
                    files.take(m.cursor + 1),
                ).to_set());
            }
        },
        Phase::GeneratingThumbnail => {
            lemma_thumbnail_keys_take(files, m.cursor);
            assert(after.thumbnails =~= w0.thumbnails + thumbnail_keys(
                files.take(m.cursor + 1),
            ).to_set());
        },
        Phase::Probing => {
            lemma_off_target_step(w0, target, m.cursor);
            if (w0.resolution)(files[m.cursor]) == target {
                lemma_file_finished(w0, target, m, w);
            }
        },
        Phase::CheckingRescaled => {
            lemma_off_target_step(w0, target, m.cursor);
            if w.rescaled.contains(files[m.cursor]) {
                assert(w.rescaled =~= w0.rescaled + off_target(w0, target, m.cursor + 1));
                lemma_file_finished(w0, target, m, w);
            }
        },
        Phase::Rescaling => {
            lemma_off_target_step(w0, target, m.cursor);
            assert(after.rescaled =~= w0.rescaled + off_target(w0, target, m.cursor + 1));
            lemma_file_finished(w0, target, m, after);
        },
        Phase::ListingThumbnails => {
            let listed = regular_names((w0.listing)(unswept_thumbnails(w0)));
            let begun = ReconcilerView {
                phase: Phase::RemovingThumbnail,
                orphans: orphans_of(listed, m.live_thumbnails),
                cursor: 0,
                ..m
            };
            assert(begun.orphans.take(0).to_set() =~= Set::<Seq<char>>::empty());
            assert(unswept_thumbnails(w0).difference(Set::<Seq<char>>::empty())
                =~= unswept_thumbnails(w0));
            lemma_orphan_taken_up(w0, target, begun, w);
        },
        Phase::RemovingThumbnail => {
            let moved = ReconcilerView { cursor: m.cursor + 1, ..m };
            lemma_take_push_set(m.orphans, m.cursor);
            assert(after.thumbnails =~= unswept_thumbnails(w0).difference(
                m.orphans.take(m.cursor + 1).to_set(),
            ));
            lemma_orphan_taken_up(w0, target, moved, after);
        },
        Phase::ListingRescaled => {
            let listed = regular_names((w0.listing)(unswept_rescaled(w0, target)));
            let begun = ReconcilerView {
                phase: Phase::RemovingRescaled,
                orphans: orphans_of(listed, m.live_rescaled),
                cursor: 0,
                ..m
            };
            assert(begun.orphans.take(0).to_set() =~= Set::<Seq<char>>::empty());
            assert(unswept_rescaled(w0, target).difference(Set::<Seq<char>>::empty())
                =~= unswept_rescaled(w0, target));
            lemma_orphan_taken_up(w0, target, begun, w);
        },
        Phase::RemovingRescaled => {
            let moved = ReconcilerView { cursor: m.cursor + 1, ..m };
            lemma_take_push_set(m.orphans, m.cursor);
            assert(after.rescaled =~= unswept_rescaled(w0, target).difference(
                m.orphans.take(m.cursor + 1).to_set(),
            ));
            lemma_orphan_taken_up(w0, target, moved, after);
        },
        _ => {},
    }
}

/// One more element taken is one more element of the set.
pub(crate) proof fn lemma_take_push_set(s: Seq<Seq<char>>, i: int)
    requires
        0 <= i < s.len(),
    ensures
        s.take(i + 1).to_set() == s.take(i).to_set().insert(s[i]),
{
    let longer = s.take(i + 1);
    let shorter = s.take(i);
    assert forall|k: Seq<char>| longer.to_set().contains(k) <==> shorter.to_set().insert(
        s[i],
    ).contains(k) by {
        if longer.contains(k) {
            let j = choose|j: int| 0 <= j < longer.len() && longer[j] == k;
            if j < i {
                assert(shorter[j] == k);
            }
        }
        if shorter.contains(k) {
            let j = choose|j: int| 0 <= j < shorter.len() && shorter[j] == k;
            assert(longer[j] == k);
        }
        if k == s[i] {
            assert(longer[i] == k);
        }
    }
    assert(longer.to_set() =~= shorter.to_set().insert(s[i]));
}

/// On caches that are reconciled already the reconciler asks for nothing
/// that would change them.
pub(crate) proof fn lemma_quiet(
    w0: World,
    target: ConfigResolution,
    m: ReconcilerView,
    action: ActionView,
    w: World,
)
    requires
        on_course(w0, target, m, action, w),
        is_reconciled(w0, target),
    ensures
        is_quiet(action),
{
    let files = w0.files();
    let keys = thumbnail_keys(files);
    lemma_unswept_finite(w0, target);
    match m.phase {
        Phase::GeneratingThumbnail => {
            assert(keys[m.cursor] == thumbnail_key_of(files[m.cursor]));
            assert(keys.to_set().contains(thumbnail_key_of(files[m.cursor])));
        },
        Phase::Rescaling => {
            assert(files.contains(files[m.cursor]));
            assert(reconciled_rescaled(w0, target).contains(files[m.cursor]));
        },
        Phase::RemovingThumbnail => {
            let key = m.orphans[m.cursor];
            let listed = regular_names((w0.listing)(unswept_thumbnails(w0)));
            lemma_orphans_of(listed, keys, key);
            assert(m.orphans.contains(key));
            assert(listed.to_set().contains(key));
            assert(keys.to_set().contains(key));
        },
        Phase::RemovingRescaled => {
            let key = m.orphans[m.cursor];
            let listed = regular_names((w0.listing)(unswept_rescaled(w0, target)));
            lemma_orphans_of(listed, files, key);
            assert(m.orphans.contains(key));
            assert(listed.to_set().contains(key));
            lemma_off_target_all(w0, target, key);
        },
        _ => {},
    }
}

/// A run that is on course completes within the bound, leaves the caches
/// reconciled and the wallpapers as they were, and is quiet throughout on
/// caches that were reconciled before.
pub(crate) proof fn lemma_drive(
    w0: World,
    target: ConfigResolution,
    m: ReconcilerView,
    action: ActionView,
    w: World,
    fuel: nat,
)
    requires
        on_course(w0, target, m, action, w),
    ensures
        ({
            let run = drive(m, action, w, fuel);
            &&& fuel >= remaining(w0, target, m) ==> run.completed
            &&& run.completed ==> {
                &&& run.world.source == w0.source
                &&& run.world.resolution == w0.resolution
                &&& run.world.listing == w0.listing
                &&& run.world.thumbnails == reconciled_thumbnails(w0)
                &&& run.world.rescaled == reconciled_rescaled(w0, target)
            }
            &&& is_reconciled(w0, target) ==> forall|i: int|
                0 <= i < run.actions.len() ==> is_quiet(#[trigger] run.actions[i])
            &&& w0.files().len() == 0 ==> forall|i: int|
                0 <= i < run.actions.len() ==> !(#[trigger] run.actions[i] is Probe)
        }),
    decreases fuel,
{
    if action is Finish {
    } else {
        lemma_step(w0, target, m, action, w);
        if fuel > 0 {
            let (after, event) = respond(w, action);
            let (next, answer) = transition(m, event);
            let following = answer->Ok_0;
            lemma_drive(w0, target, next, following, after, (fuel - 1) as nat);
            if w0.files().len() == 0 {
                let run = drive(m, action, w, fuel);
                let rest = drive(next, following, after, (fuel - 1) as nat);
                assert forall|i: int| 0 <= i < run.actions.len() implies !(
                #[trigger] run.actions[i] is Probe) by {
                    if i > 0 {
                        assert(run.actions[i] == rest.actions[i - 1]);
                    }
                }
            }
            if is_reconciled(w0, target) {
                lemma_quiet(w0, target, m, action, w);
                let run = drive(m, action, w, fuel);
                let rest = drive(next, following, after, (fuel - 1) as nat);
                assert forall|i: int| 0 <= i < run.actions.len() implies is_quiet(
                    #[trigger] run.actions[i],
                ) by {
                    if i > 0 {
                        assert(run.actions[i] == rest.actions[i - 1]);
                    }
                }
            }
        }
    }
}

/// A pass over well-formed directories is on course from its first action,
/// and so is every pass with its fuel chosen so that it completes.
pub(crate) proof fn lemma_pass(w: World, target: ConfigResolution)
    requires
        w.wf(),
    ensures
        ({
            let run = pass(w, target);
            &&& run.completed
            &&& run.world.source == w.source
            &&& run.world.resolution == w.resolution
            &&& run.world.listing == w.listing
            &&& run.world.thumbnails == reconciled_thumbnails(w)
            &&& run.world.rescaled == reconciled_rescaled(w, target)
            &&& is_reconciled(w, target) ==> forall|i: int|
                0 <= i < run.actions.len() ==> is_quiet(#[trigger] run.actions[i])
            &&& w.files().len() == 0 ==> forall|i: int|
                0 <= i < run.actions.len() ==> !(#[trigger] run.actions[i] is Probe)
        }),
{
    let (m, answer) = transition(
        initial(w.thumbnails_dir, w.rescaled_dir, target),
        EventView::Start,
    );
    let action = ActionView::ListSource;
    assert(answer == Ok::<ActionView, ErrorView>(action));
    assert(on_course(w, target, m, action, w));
    let enough = remaining(w, target, m) as nat;
    lemma_drive(w, target, m, action, w, enough);
    assert(pass_within(w, target, enough).completed);
    let chosen = choose|fuel: nat| pass_within(w, target, fuel).completed;
    lemma_drive(w, target, m, action, w, chosen);
}

/// The phases of the sweeps, which follow the walk.
pub open spec fn is_sweeping(phase: Phase) -> bool {
    phase == Phase::ListingThumbnails || phase == Phase::RemovingThumbnail || phase
        == Phase::ListingRescaled || phase == Phase::RemovingRescaled || phase == Phase::Finished
}

/// In a run that is on course nothing of the walk follows a removal, and
/// nothing of the walk happens at all once the sweeps have begun.
pub(crate) proof fn lemma_drive_order(
    w0: World,
    target: ConfigResolution,
    m: ReconcilerView,
    action: ActionView,
    w: World,
    fuel: nat,
)
    requires
        on_course(w0, target, m, action, w),
    ensures
        ({
            let run = drive(m, action, w, fuel);
            &&& is_sweeping(m.phase) ==> forall|j: int|
                0 <= j < run.actions.len() ==> !is_walk(#[trigger] run.actions[j])
            &&& forall|i: int, j: int|
                0 <= i < j < run.actions.len() && is_removal(#[trigger] run.actions[i])
                    ==> !is_walk(#[trigger] run.actions[j])
        }),
    decreases fuel,
{
    if !(action is Finish) && fuel > 0 {
        lemma_step(w0, target, m, action, w);
        let (after, event) = respond(w, action);
        let (next, answer) = transition(m, event);
        let following = answer->Ok_0;
        lemma_drive_order(w0, target, next, following, after, (fuel - 1) as nat);
        let run = drive(m, action, w, fuel);
        let rest = drive(next, following, after, (fuel - 1) as nat);
        assert(run.actions[0] == action);
        assert forall|j: int| 1 <= j < run.actions.len() implies #[trigger] run.actions[j]
            == rest.actions[j - 1] by {}
        if is_sweeping(m.phase) {
            assert(is_sweeping(next.phase));
            assert forall|j: int| 0 <= j < run.actions.len() implies !is_walk(
                #[trigger] run.actions[j],
            ) by {
                if j > 0 {
                    assert(run.actions[j] == rest.actions[j - 1]);
                }
            }
        }
        assert forall|i: int, j: int|
            0 <= i < j < run.actions.len() && is_removal(#[trigger] run.actions[i]) implies !is_walk(
            #[trigger] run.actions[j],
        ) by {
            assert(run.actions[j] == rest.actions[j - 1]);
            if i > 0 {
                assert(run.actions[i] == rest.actions[i - 1]);
            } else {
                assert(is_sweeping(m.phase));
            }
        }
    }
}

/// The orphans of the thumbnail cache that are still to be removed.
pub open spec fn pending_thumbnails(w0: World, m: ReconcilerView) -> Seq<Seq<char>> {
    if m.phase == Phase::RemovingThumbnail {
        thumbnail_orphans(w0).skip(m.cursor)
    } else if m.phase == Phase::ListingRescaled || m.phase == Phase::RemovingRescaled || m.phase
        == Phase::Finished {
        Seq::empty()
    } else {
        thumbnail_orphans(w0)
    }
}

/// The orphans of the rescaled cache that are still to be removed.
pub open spec fn pending_rescaled(
    w0: World,
    target: ConfigResolution,
    m: ReconcilerView,
) -> Seq<Seq<char>> {
    if m.phase == Phase::RemovingRescaled {
        rescaled_orphans(w0, target).skip(m.cursor)
    } else if m.phase == Phase::Finished {
        Seq::empty()
    } else {
        rescaled_orphans(w0, target)
    }
}

/// The key that `action` removes from the thumbnail cache, if it removes
/// one.
pub open spec fn thumbnail_removed_by(action: ActionView) -> Seq<Seq<char>> {
    if action is RemoveThumbnail {
        seq![action->RemoveThumbnail_key]
    } else {
        Seq::empty()
    }
}

/// The key that `action` removes from the rescaled cache, if it removes
/// one.
pub open spec fn rescaled_removed_by(action: ActionView) -> Seq<Seq<char>> {
    if action is RemoveRescaled {
        seq![action->RemoveRescaled_key]
    } else {
        Seq::empty()
    }
}

/// The removals of a run are those of its first action and those of the
/// rest.
pub(crate) proof fn lemma_removed_prepend(action: ActionView, rest: Seq<ActionView>)
    ensures
        removed_thumbnails(seq![action] + rest) == thumbnail_removed_by(action)
            + removed_thumbnails(rest),
        removed_rescaled(seq![action] + rest) == rescaled_removed_by(action) + removed_rescaled(
            rest,
        ),
        removed_thumbnails(Seq::empty()) == Seq::<Seq<char>>::empty(),
        removed_rescaled(Seq::empty()) == Seq::<Seq<char>>::empty(),
{
    reveal(Seq::filter);
    let one = seq![action];
    let from_thumbnails = |action: ActionView| action is RemoveThumbnail;
    let from_rescaled = |action: ActionView| action is RemoveRescaled;
    let thumbnail_key = |action: ActionView| action->RemoveThumbnail_key;
    let rescaled_key = |action: ActionView| action->RemoveRescaled_key;
    assert(one.drop_last() =~= Seq::<ActionView>::empty());
    assert(one.last() == action);
    let none = Seq::<ActionView>::empty();
    assert(none.filter(from_thumbnails) =~= none);
    assert(none.filter(from_rescaled) =~= none);
    assert(one.filter(from_thumbnails) =~= if action is RemoveThumbnail {
        one
    } else {
        none
    });
    assert(one.filter(from_rescaled) =~= if action is RemoveRescaled {
        one
    } else {
        none
    });
    Seq::filter_distributes_over_add(one, rest, from_thumbnails);
    Seq::filter_distributes_over_add(one, rest, from_rescaled);
    assert(one.filter(from_thumbnails).map_values(thumbnail_key) =~= thumbnail_removed_by(action));
    assert(one.filter(from_rescaled).map_values(rescaled_key) =~= rescaled_removed_by(action));
    assert((one.filter(from_thumbnails) + rest.filter(from_thumbnails)).map_values(thumbnail_key)
        =~= one.filter(from_thumbnails).map_values(thumbnail_key) + rest.filter(
        from_thumbnails,
    ).map_values(thumbnail_key));
    assert((one.filter(from_rescaled) + rest.filter(from_rescaled)).map_values(rescaled_key)
        =~= one.filter(from_rescaled).map_values(rescaled_key) + rest.filter(
        from_rescaled,
    ).map_values(rescaled_key));
    assert(removed_thumbnails(Seq::empty()) =~= Seq::<Seq<char>>::empty());
    assert(removed_rescaled(Seq::empty()) =~= Seq::<Seq<char>>::empty());
}

/// What is still to be removed before an action is what the action
/// removes and what is still to be removed after it.
pub(crate) proof fn lemma_pending_step(
    w0: World,
    target: ConfigResolution,
    m: ReconcilerView,
    action: ActionView,
    w: World,
)
    requires
        on_course(w0, target, m, action, w),
        !(action is Finish),
    ensures
        ({
            let (after, event) = respond(w, action);
            let (next, answer) = transition(m, event);
            &&& pending_thumbnails(w0, m) == thumbnail_removed_by(action) + pending_thumbnails(
                w0,
                next,
            )
            &&& pending_rescaled(w0, target, m) == rescaled_removed_by(action) + pending_rescaled(
                w0,
                target,
                next,
            )
        }),
{
    lemma_step(w0, target, m, action, w);
    let (after, event) = respond(w, action);
    let (next, answer) = transition(m, event);
    let thumbnails = thumbnail_orphans(w0);
    let rescaled = rescaled_orphans(w0, target);
    match m.phase {
        Phase::RemovingThumbnail => {
            assert(thumbnails.skip(m.cursor) =~= seq![thumbnails[m.cursor]] + thumbnails.skip(
                m.cursor + 1,
            ));
            if next.phase != Phase::RemovingThumbnail {
                assert(thumbnails.skip(m.cursor + 1) =~= Seq::<Seq<char>>::empty());
            }
        },
        Phase::RemovingRescaled => {
            assert(rescaled.skip(m.cursor) =~= seq![rescaled[m.cursor]] + rescaled.skip(
                m.cursor + 1,
            ));
            if next.phase != Phase::RemovingRescaled {
                assert(rescaled.skip(m.cursor + 1) =~= Seq::<Seq<char>>::empty());
            }
        },
        Phase::ListingThumbnails => {
            assert(thumbnails.skip(0) =~= thumbnails);
            if next.phase != Phase::RemovingThumbnail {
                assert(thumbnails =~= Seq::<Seq<char>>::empty());
            }
        },
        Phase::ListingRescaled => {
            assert(rescaled.skip(0) =~= rescaled);
            if next.phase != Phase::RemovingRescaled {
                assert(rescaled =~= Seq::<Seq<char>>::empty());
            }
        },
        _ => {},
    }
    assert(Seq::<Seq<char>>::empty() + pending_thumbnails(w0, next) =~= pending_thumbnails(
        w0,
        next,
    ));
    assert(Seq::<Seq<char>>::empty() + pending_rescaled(w0, target, next) =~= pending_rescaled(
        w0,
        target,
        next,
    ));
}

/// A run that is on course and completes removes what was still to be
/// removed when it began, in that order.
pub(crate) proof fn lemma_drive_removals(
    w0: World,
    target: ConfigResolution,
    m: ReconcilerView,
    action: ActionView,
    w: World,
    fuel: nat,
)
    requires
        on_course(w0, target, m, action, w),
    ensures
        ({
            let run = drive(m, action, w, fuel);
            run.completed ==> removed_thumbnails(run.actions) == pending_thumbnails(w0, m)
                && removed_rescaled(run.actions) == pending_rescaled(w0, target, m)
        }),
    decreases fuel,
{
    if action is Finish {
        lemma_removed_prepend(action, Seq::empty());
    } else if fuel > 0 {
        lemma_step(w0, target, m, action, w);
        lemma_pending_step(w0, target, m, action, w);
        let (after, event) = respond(w, action);
        let (next, answer) = transition(m, event);
        let following = answer->Ok_0;
        lemma_drive_removals(w0, target, next, following, after, (fuel - 1) as nat);
        let rest = drive(next, following, after, (fuel - 1) as nat);
        lemma_removed_prepend(action, rest.actions);
    }
}

} // verus!
