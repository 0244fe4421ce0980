//! The selection of a wallpaper: the user picks among the thumbnails, the
//! pick is traced back to a wallpaper, and the player is told to load it.
//!
//! Like the reconciler, the selection touches nothing itself. It is told
//! what happened (`SelectEvent`) and answers with what to do next
//! (`SelectAction`). The wallpaper directory is searched only when the
//! rescaled cache holds no copy, and nothing is searched or loaded once
//! the selection has failed.

use crate::config::full_config::{FullConfig, FullConfigView};
use crate::mpv::{load_file, load_file_of};
use crate::path::{file_name, file_name_of, join, joined, stem, stem_of};
use crate::select::{
    find_wallpaper_path, first_with_stem, selected_of, selected_path_of, SelectError,
    SelectedView,
};
use crate::sxiv::{ask_user_input_single, first_line_of};
use vstd::prelude::*;
use vstd::string::*;

verus! {

/// Where a selection stands: what was asked for last and is awaited now.
#[derive(Clone, Copy, Debug, PartialEq, Eq, Structural)]
pub enum SelectPhase {
    /// Nothing was asked for yet.
    Idle,
    /// What the picker prints.
    Picking,
    /// The listing of the rescaled cache.
    SearchingRescaled,
    /// The listing of the wallpaper directory.
    SearchingWallpapers,
    /// The player's loading of the wallpaper.
    Loading,
    /// The selection is complete.
    Finished,
    /// The selection was given up.
    Failed,
}

/// What the driver is to do next.
#[derive(Clone, Debug, PartialEq, Eq)]
pub enum SelectAction {
    /// Run the picker over the directory `dir`.
    Pick { dir: String },
    /// List the rescaled cache, the directory `dir`. The user picked the
    /// file named `picked`.
    SearchRescaled { dir: String, picked: String },
    /// List the wallpaper directory `dir`.
    SearchWallpapers { dir: String },
    /// Have the player load the file at `path`, by writing `line` to its
    /// control socket.
    Load { path: String, line: String },
    /// Nothing: the selection is complete.
    Finish,
}

/// What the driver reports back.
#[derive(Clone, Debug, PartialEq, Eq)]
pub enum SelectEvent {
    /// The selection is to begin.
    Start,
    /// The picker printed `output`.
    Picked { output: String },
    /// The directory asked for holds the entries of these names.
    Listed { entries: Vec<String> },
    /// The player was told.
    Done,
    /// What was asked for could not be done.
    Failed { reason: String },
}

/// Why a selection was given up. Every error is final.
#[derive(Clone, Debug, PartialEq, Eq)]
pub enum SelectionError {
    /// The picker could not be run or printed what cannot be read.
    PickerFailed(String),
    /// The pick leads to no wallpaper: nothing was selected, the selected
    /// path has no name, or no wallpaper has its stem.
    Unresolved(SelectError),
    /// A directory could not be listed.
    SearchFailed(String),
    /// The player could not be told.
    LoadFailed(String),
    /// The event does not answer what was asked for.
    OutOfTurn,
}

/// `SelectAction` as a mathematical value.
pub ghost enum SelectActionView {
    Pick { dir: Seq<char> },
    SearchRescaled { dir: Seq<char>, picked: Seq<char> },
    SearchWallpapers { dir: Seq<char> },
    Load { path: Seq<char>, line: Seq<char> },
    Finish,
}

/// `SelectEvent` as a mathematical value.
pub ghost enum SelectEventView {
    Start,
    Picked { output: Seq<char> },
    Listed { entries: Seq<Seq<char>> },
    Done,
    Failed { reason: Seq<char> },
}

/// `SelectionError` as a mathematical value.
pub ghost enum SelectionErrorView {
    PickerFailed(Seq<char>),
    Unresolved(SelectError),
    SearchFailed(Seq<char>),
    LoadFailed(Seq<char>),
    OutOfTurn,
}

impl View for SelectAction {
    type V = SelectActionView;

    open spec fn view(&self) -> SelectActionView {
        match *self {
            SelectAction::Pick { dir } => SelectActionView::Pick { dir: dir@ },
            SelectAction::SearchRescaled { dir, picked } => SelectActionView::SearchRescaled {
                dir: dir@,
                picked: picked@,
            },
            SelectAction::SearchWallpapers { dir } => SelectActionView::SearchWallpapers {
                dir: dir@,
            },
            SelectAction::Load { path, line } => SelectActionView::Load {
                path: path@,
                line: line@,
            },
            SelectAction::Finish => SelectActionView::Finish,
        }
    }
}

impl View for SelectEvent {
    type V = SelectEventView;

    open spec fn view(&self) -> SelectEventView {
        match *self {
            SelectEvent::Start => SelectEventView::Start,
            SelectEvent::Picked { output } => SelectEventView::Picked { output: output@ },
            SelectEvent::Listed { entries } => SelectEventView::Listed {
                entries: entries.deep_view(),
            },
            SelectEvent::Done => SelectEventView::Done,
            SelectEvent::Failed { reason } => SelectEventView::Failed { reason: reason@ },
        }
    }
}

impl View for SelectionError {
    type V = SelectionErrorView;

    open spec fn view(&self) -> SelectionErrorView {
        match *self {
            SelectionError::PickerFailed(reason) => SelectionErrorView::PickerFailed(reason@),
            SelectionError::Unresolved(error) => SelectionErrorView::Unresolved(error),
            SelectionError::SearchFailed(reason) => SelectionErrorView::SearchFailed(reason@),
            SelectionError::LoadFailed(reason) => SelectionErrorView::LoadFailed(reason@),
            SelectionError::OutOfTurn => SelectionErrorView::OutOfTurn,
        }
    }
}

impl SelectionErrorView {
    /// The message of the error.
    pub open spec fn message(self) -> Seq<char> {
        match self {
            SelectionErrorView::PickerFailed(reason) => reason,
            SelectionErrorView::Unresolved(error) => error.message_of(),
            SelectionErrorView::SearchFailed(reason) => "Failed to read wallpapers dir: "@
                + reason,
            SelectionErrorView::LoadFailed(reason) => reason,
            SelectionErrorView::OutOfTurn => "The event does not answer the action"@,
        }
    }
}

impl SelectionError {
    /// The message of the error.
    pub fn message(&self) -> (r: String)
        ensures
            r@ == self@.message(),
    {
        match self {
            SelectionError::PickerFailed(reason) => reason.clone(),
            SelectionError::Unresolved(error) => error.message(),
            SelectionError::SearchFailed(reason) => {
                "Failed to read wallpapers dir: ".to_owned().concat(reason.as_str())
            },
            SelectionError::LoadFailed(reason) => reason.clone(),
            SelectionError::OutOfTurn => "The event does not answer the action".to_owned(),
        }
    }
}

/// What a step answers, as a mathematical value.
pub type SelectAnswer = Result<SelectActionView, SelectionErrorView>;

/// The view of a step's result.
pub open spec fn select_answer_view(r: Result<SelectAction, SelectionError>) -> SelectAnswer {
    match r {
        Ok(action) => Ok(action@),
        Err(error) => Err(error@),
    }
}

/// The state of a selection as a mathematical value.
pub ghost struct SelectionView {
    pub phase: SelectPhase,
    /// The directory that the picker shows.
    pub picker_dir: Seq<char>,
    /// The directory of the rescaled cache.
    pub rescaled_dir: Seq<char>,
    /// The directory of the wallpapers.
    pub wallpapers_dir: Seq<char>,
    /// The stem of the file that the user picked.
    pub stem: Seq<char>,
}

/// The state before a selection under `config`; the picker shows the
/// wallpapers themselves for a static image, the thumbnails otherwise.
pub open spec fn begun(config: FullConfigView, is_static: bool) -> SelectionView {
    SelectionView {
        phase: SelectPhase::Idle,
        picker_dir: if is_static {
            config.wallpapers_dir
        } else {
            config.thumbnails_cache_dir
        },
        rescaled_dir: config.wallpapers_rescaled_dir,
        wallpapers_dir: config.wallpapers_dir,
        stem: Seq::empty(),
    }
}

/// The selection is given up with `error`.
pub open spec fn abandon(m: SelectionView, error: SelectionErrorView) -> (
    SelectionView,
    SelectAnswer,
) {
    (SelectionView { phase: SelectPhase::Failed, ..m }, Err(error))
}

/// The wallpaper named `found` in the directory `dir` is loaded.
pub open spec fn load(m: SelectionView, dir: Seq<char>, found: Seq<char>) -> (
    SelectionView,
    SelectAnswer,
) {
    (
        SelectionView { phase: SelectPhase::Loading, ..m },
        Ok(
            SelectActionView::Load {
                path: joined(dir, found),
                line: load_file_of(joined(dir, found)),
            },
        ),
    )
}

/// One step of a selection: the state and the answer that follow from a
/// state and an event.
pub open spec fn select_transition(m: SelectionView, event: SelectEventView) -> (
    SelectionView,
    SelectAnswer,
) {
    match (m.phase, event) {
        (SelectPhase::Idle, SelectEventView::Start) => (
            SelectionView { phase: SelectPhase::Picking, ..m },
            Ok(SelectActionView::Pick { dir: m.picker_dir }),
        ),
        (SelectPhase::Picking, SelectEventView::Picked { output }) => {
            if first_line_of(output).len() == 0 {
                abandon(m, SelectionErrorView::Unresolved(SelectError::NoSelection))
            } else {
                match file_name_of(first_line_of(output)) {
                    None => abandon(m, SelectionErrorView::Unresolved(SelectError::NoName)),
                    Some(name) => (
                        SelectionView {
                            phase: SelectPhase::SearchingRescaled,
                            stem: stem_of(name),
                            ..m
                        },
                        Ok(SelectActionView::SearchRescaled { dir: m.rescaled_dir, picked: name }),
                    ),
                }
            }
        },
        (SelectPhase::Picking, SelectEventView::Failed { reason }) => abandon(
            m,
            SelectionErrorView::PickerFailed(reason),
        ),
        (SelectPhase::SearchingRescaled, SelectEventView::Listed { entries }) => {
            match first_with_stem(entries, m.stem) {
                Some(found) => load(m, m.rescaled_dir, found),
                None => (
                    SelectionView { phase: SelectPhase::SearchingWallpapers, ..m },
                    Ok(SelectActionView::SearchWallpapers { dir: m.wallpapers_dir }),
                ),
            }
        },
        (SelectPhase::SearchingRescaled, SelectEventView::Failed { reason }) => abandon(
            m,
            SelectionErrorView::SearchFailed(reason),
        ),
        (SelectPhase::SearchingWallpapers, SelectEventView::Listed { entries }) => {
            match first_with_stem(entries, m.stem) {
                Some(found) => load(m, m.wallpapers_dir, found),
                None => abandon(m, SelectionErrorView::Unresolved(SelectError::NoWallpaper)),
            }
        },
        (SelectPhase::SearchingWallpapers, SelectEventView::Failed { reason }) => abandon(
            m,
            SelectionErrorView::SearchFailed(reason),
        ),
        (SelectPhase::Loading, SelectEventView::Done) => (
            SelectionView { phase: SelectPhase::Finished, ..m },
            Ok(SelectActionView::Finish),
        ),
        (SelectPhase::Loading, SelectEventView::Failed { reason }) => abandon(
            m,
            SelectionErrorView::LoadFailed(reason),
        ),
        _ => abandon(m, SelectionErrorView::OutOfTurn),
    }
}

/// An empty selection is fatal: when the picker prints nothing on its
/// first line the selection is given up with `NoSelection`, before any
/// directory is searched, and whatever is reported afterwards is answered
/// with an error: nothing is searched and nothing is loaded.
pub proof fn law_empty_selection_is_fatal(
    m: SelectionView,
    output: Seq<char>,
    later: SelectEventView,
)
    requires
        m.phase == SelectPhase::Picking,
        first_line_of(output).len() == 0,
    ensures
        ({
            let (failed, answer) = select_transition(m, SelectEventView::Picked { output });
            &&& answer == Err::<SelectActionView, SelectionErrorView>(
                SelectionErrorView::Unresolved(SelectError::NoSelection),
            )
            &&& failed.phase == SelectPhase::Failed
            &&& select_transition(failed, later) == abandon(failed, SelectionErrorView::OutOfTurn)
        }),
{
}

/// Every error of a selection is final: a step that answers with an error
/// gives the selection up, and a selection that was given up or is
/// complete answers every event with an error and stays as it is.
pub proof fn law_selection_errors_are_final(m: SelectionView, event: SelectEventView)
    ensures
        select_transition(m, event).1 is Err ==> select_transition(m, event).0 == (SelectionView {
            phase: SelectPhase::Failed,
            ..m
        }),
        m.phase == SelectPhase::Failed || m.phase == SelectPhase::Finished ==> select_transition(
            m,
            event,
        ) == abandon(m, SelectionErrorView::OutOfTurn),
{
}

/// The selection loads what the pick resolves to: with the rescaled cache
/// listed as `rescaled` and the wallpaper directory as `wallpapers`, a
/// pick that resolves is answered, after the searches, with the loading of
/// the resolved wallpaper's path, and a pick that does not resolve with
/// the error. An empty pick and a pick without a name are answered with
/// the error before any search; the wallpaper directory is searched
/// exactly when the rescaled cache holds no entry of the stem.
pub proof fn law_selection_resolves(
    config: FullConfigView,
    is_static: bool,
    output: Seq<char>,
    rescaled: Seq<Seq<char>>,
    wallpapers: Seq<Seq<char>>,
)
    ensures
        ({
            let picking = select_transition(begun(config, is_static), SelectEventView::Start).0;
            let (searching, first) = select_transition(
                picking,
                SelectEventView::Picked { output },
            );
            let (searched, second) = select_transition(
                searching,
                SelectEventView::Listed { entries: rescaled },
            );
            let (last, third) = select_transition(
                searched,
                SelectEventView::Listed { entries: wallpapers },
            );
            match selected_of(output, rescaled, wallpapers) {
                Ok(SelectedView::Rescaled(found)) => {
                    &&& first is Ok
                    &&& second == Ok::<SelectActionView, SelectionErrorView>(
                        SelectActionView::Load {
                            path: selected_path_of(config, SelectedView::Rescaled(found)),
                            line: load_file_of(
                                selected_path_of(config, SelectedView::Rescaled(found)),
                            ),
                        },
                    )
                },
                Ok(SelectedView::Wallpaper(found)) => {
                    &&& first is Ok
                    &&& second == Ok::<SelectActionView, SelectionErrorView>(
                        SelectActionView::SearchWallpapers { dir: config.wallpapers_dir },
                    )
                    &&& third == Ok::<SelectActionView, SelectionErrorView>(
                        SelectActionView::Load {
                            path: selected_path_of(config, SelectedView::Wallpaper(found)),
                            line: load_file_of(
                                selected_path_of(config, SelectedView::Wallpaper(found)),
                            ),
                        },
                    )
                },
                Err(SelectError::NoSelection) => first == Err::<
                    SelectActionView,
                    SelectionErrorView,
                >(SelectionErrorView::Unresolved(SelectError::NoSelection)),
                Err(SelectError::NoName) => first == Err::<SelectActionView, SelectionErrorView>(
                    SelectionErrorView::Unresolved(SelectError::NoName),
                ),
                Err(SelectError::NoWallpaper) => {
                    &&& first is Ok
                    &&& second is Ok
                    &&& third == Err::<SelectActionView, SelectionErrorView>(
                        SelectionErrorView::Unresolved(SelectError::NoWallpaper),
                    )
                },
            }
        }),
{
}

/// The state of one selection.
pub struct Selection {
    phase: SelectPhase,
    picker_dir: String,
    rescaled_dir: String,
    wallpapers_dir: String,
    stem: String,
}

impl View for Selection {
    type V = SelectionView;

    closed spec fn view(&self) -> SelectionView {
        SelectionView {
            phase: self.phase,
            picker_dir: self.picker_dir@,
            rescaled_dir: self.rescaled_dir@,
            wallpapers_dir: self.wallpapers_dir@,
            stem: self.stem@,
        }
    }
}

impl Selection {
    /// A selection under `config`, not yet begun.
    pub fn new(config: &FullConfig, is_static: bool) -> (r: Selection)
        ensures
            r@ == begun(config@, is_static),
    {
        Selection {
            phase: SelectPhase::Idle,
            picker_dir: config.picker_dir(is_static),
            rescaled_dir: config.wallpapers_rescaled_dir.clone(),
            wallpapers_dir: config.wallpapers_dir.clone(),
            stem: String::new(),
        }
    }

    /// Where the selection stands.
    pub fn phase(&self) -> (phase: SelectPhase)
        ensures
            phase == self@.phase,
    {
        self.phase
    }

    fn abandon(&mut self, error: SelectionError) -> (r: Result<SelectAction, SelectionError>)
        ensures
            (final(self)@, select_answer_view(r)) == abandon(old(self)@, error@),
    {
        self.phase = SelectPhase::Failed;
        Err(error)
    }

    fn load(&mut self, in_rescaled: bool, found: String) -> (r: Result<
        SelectAction,
        SelectionError,
    >)
        ensures
            (final(self)@, select_answer_view(r)) == load(
                old(self)@,
                if in_rescaled {
                    old(self)@.rescaled_dir
                } else {
                    old(self)@.wallpapers_dir
                },
                found@,
            ),
    {
        let path = if in_rescaled {
            join(self.rescaled_dir.as_str(), found.as_str())
        } else {
            join(self.wallpapers_dir.as_str(), found.as_str())
        };
        let line = load_file(path.as_str());
        self.phase = SelectPhase::Loading;
        Ok(SelectAction::Load { path, line })
    }

    /// Takes the selection one step on: `event` reports what came of the
    /// action that the step before answered with (`SelectEvent::Start` for
    /// the first step), and the answer is the action to perform next. An
    /// error ends the selection, and so does `SelectAction::Finish`.
    pub fn step(&mut self, event: SelectEvent) -> (r: Result<SelectAction, SelectionError>)
        ensures
            (final(self)@, select_answer_view(r)) == select_transition(old(self)@, event@),
    {
        match (self.phase, event) {
            (SelectPhase::Idle, SelectEvent::Start) => {
                self.phase = SelectPhase::Picking;
                Ok(SelectAction::Pick { dir: self.picker_dir.clone() })
            },
            (SelectPhase::Picking, SelectEvent::Picked { output }) => {
                match ask_user_input_single(output.as_str()) {
                    Err(_) => self.abandon(SelectionError::Unresolved(SelectError::NoSelection)),
                    Ok(path) => match file_name(path.as_str()) {
                        None => self.abandon(SelectionError::Unresolved(SelectError::NoName)),
                        Some(name) => {
                            self.stem = stem(name.as_str());
                            self.phase = SelectPhase::SearchingRescaled;
                            Ok(
                                SelectAction::SearchRescaled {
                                    dir: self.rescaled_dir.clone(),
                                    picked: name,
                                },
                            )
                        },
                    },
                }
            },
            (SelectPhase::Picking, SelectEvent::Failed { reason }) => self.abandon(
                SelectionError::PickerFailed(reason),
            ),
            (SelectPhase::SearchingRescaled, SelectEvent::Listed { entries }) => {
                match find_wallpaper_path(&entries, self.stem.as_str()) {
                    Some(found) => self.load(true, found),
                    None => {
                        self.phase = SelectPhase::SearchingWallpapers;
                        Ok(SelectAction::SearchWallpapers { dir: self.wallpapers_dir.clone() })
                    },
                }
            },
            (SelectPhase::SearchingRescaled, SelectEvent::Failed { reason }) => self.abandon(
                SelectionError::SearchFailed(reason),
            ),
            (SelectPhase::SearchingWallpapers, SelectEvent::Listed { entries }) => {
                match find_wallpaper_path(&entries, self.stem.as_str()) {
                    Some(found) => self.load(false, found),
                    None => self.abandon(SelectionError::Unresolved(SelectError::NoWallpaper)),
                }
            },
            (SelectPhase::SearchingWallpapers, SelectEvent::Failed { reason }) => self.abandon(
                SelectionError::SearchFailed(reason),
            ),
            (SelectPhase::Loading, SelectEvent::Done) => {
                self.phase = SelectPhase::Finished;
                Ok(SelectAction::Finish)
            },
            (SelectPhase::Loading, SelectEvent::Failed { reason }) => self.abandon(
                SelectionError::LoadFailed(reason),
            ),
            _ => self.abandon(SelectionError::OutOfTurn),
        }
    }
}

/// What is said before `action` is performed: which file the user picked,
/// when the search for its wallpaper begins. Nothing is said of the other
/// actions.
pub open spec fn select_announcement_of(action: SelectActionView) -> Option<Seq<char>> {
    match action {
        SelectActionView::SearchRescaled { dir, picked } => Some(
            "Selected \""@ + picked + "\""@,
        ),
        _ => None,
    }
}

/// What is to be said before `action` is performed.
pub fn select_announcement(action: &SelectAction) -> (r: Option<String>)
    ensures
        r.deep_view() == select_announcement_of(action@),
{
    match action {
        SelectAction::SearchRescaled { dir, picked } => Some(
            "Selected \"".to_owned().concat(picked.as_str()).concat("\""),
        ),
        _ => None,
    }
}

} // verus!
