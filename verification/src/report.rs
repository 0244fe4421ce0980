//! What a pass tells its user, and what its errors say.

use crate::config::full_config::{FullConfig, FullConfigView};
use crate::path::joined;
use crate::reconcile::{Action, ActionView, ErrorView, Event, EventView, ReconcileError};
use crate::number::{decimal, decimal_of};
use vstd::prelude::*;
use vstd::string::*;

verus! {

/// What is said before `action` is performed: that a thumbnail or a
/// rescaled copy is missing and is generated, or that a cache entry has no
/// wallpaper and is removed. Nothing is said of the other actions.
pub open spec fn announcement_of(action: ActionView, config: FullConfigView) -> Option<Seq<char>> {
    match action {
        ActionView::GenerateThumbnail { source, key } => Some(
            "Missing thumbnail for file "@ + source + ". Generating..."@,
        ),
        ActionView::Rescale { source, native, target, key } => Some(
            "Resolution "@ + decimal_of(native.width as int) + "x"@ + decimal_of(
                native.height as int,
            ) + " does not match for "@ + source + ". Generating rescaled version..."@,
        ),
        ActionView::RemoveThumbnail { key } => Some(
            "Thumbnail named "@ + joined(config.thumbnails_cache_dir, key)
                + " has no wallpaper. Removing it."@,
        ),
        ActionView::RemoveRescaled { key } => Some(
            "Rescaled wallpaper named "@ + joined(config.wallpapers_rescaled_dir, key)
                + " has no wallpaper. Removing it."@,
        ),
        _ => None,
    }
}

/// What is to be said before `action` is performed.
pub fn announcement(action: &Action, config: &FullConfig) -> (r: Option<String>)
    ensures
        r.deep_view() == announcement_of(action@, config@),
{
    match action {
        Action::GenerateThumbnail { source, key } => Some(
            "Missing thumbnail for file ".to_owned().concat(source.as_str()).concat(
                ". Generating...",
            ),
        ),
        Action::Rescale { source, native, target, key } => Some(
            "Resolution ".to_owned().concat(decimal(native.width).as_str()).concat("x").concat(
                decimal(native.height).as_str(),
            ).concat(" does not match for ").concat(source.as_str()).concat(
                ". Generating rescaled version...",
            ),
        ),
        Action::RemoveThumbnail { key } => Some(
            "Thumbnail named ".to_owned().concat(
                config.thumbnail_path(key.as_str()).as_str(),
            ).concat(" has no wallpaper. Removing it."),
        ),
        Action::RemoveRescaled { key } => Some(
            "Rescaled wallpaper named ".to_owned().concat(
                config.rescaled_path(key.as_str()).as_str(),
            ).concat(" has no wallpaper. Removing it."),
        ),
        _ => None,
    }
}

/// What is said after `action` was performed and came to `event`: that a
/// thumbnail was found, or that a rescaled copy was generated. Nothing is
/// said otherwise.
pub open spec fn outcome_of(action: ActionView, event: EventView) -> Option<Seq<char>> {
    match (action, event) {
        (ActionView::CheckThumbnail { source, key }, EventView::Exists { exists }) => if exists {
            Some("Thumbnail for file "@ + source + " already exists"@)
        } else {
            None
        },
        (ActionView::Rescale { source, native, target, key }, EventView::Done) => Some(
            "Rescaled version generated!"@,
        ),
        _ => None,
    }
}

/// What is to be said after `action` was performed and came to `event`.
pub fn outcome(action: &Action, event: &Event) -> (r: Option<String>)
    ensures
        r.deep_view() == outcome_of(action@, event@),
{
    match (action, event) {
        (Action::CheckThumbnail { source, key }, Event::Exists { exists }) => {
            if *exists {
                Some(
                    "Thumbnail for file ".to_owned().concat(source.as_str()).concat(
                        " already exists",
                    ),
                )
            } else {
                None
            }
        },
        (Action::Rescale { source, native, target, key }, Event::Done) => Some(
            "Rescaled version generated!".to_owned(),
        ),
        _ => None,
    }
}

/// What an error of a pass says.
pub open spec fn error_message_of(error: ErrorView) -> Seq<char> {
    match error {
        ErrorView::SourceDirUnreadable => "Could not read wallpapers directory."@,
        ErrorView::CacheDirUnreadable => "Could not read cache directory"@,
        ErrorView::TranscodeFailed(reason) => reason,
        ErrorView::ProbeFailed(reason) => reason,
        ErrorView::DeletionFailed(path, reason) => "Failed to remove cached item "@ + path + ": "@
            + reason,
        ErrorView::NoIdentity(name) => "Could not extract file stem of "@ + name,
        ErrorView::OutOfTurn => "The event does not answer the action"@,
    }
}

/// What `error` says.
pub fn error_message(error: &ReconcileError) -> (r: String)
    ensures
        r@ == error_message_of(error@),
{
    match error {
        ReconcileError::SourceDirUnreadable => "Could not read wallpapers directory.".to_owned(),
        ReconcileError::CacheDirUnreadable => "Could not read cache directory".to_owned(),
        ReconcileError::TranscodeFailed(reason) => reason.clone(),
        ReconcileError::ProbeFailed(reason) => reason.clone(),
        ReconcileError::DeletionFailed(path, reason) => {
            "Failed to remove cached item ".to_owned().concat(path.as_str()).concat(": ").concat(
                reason.as_str(),
            )
        },
        ReconcileError::NoIdentity(name) => {
            "Could not extract file stem of ".to_owned().concat(name.as_str())
        },
        ReconcileError::OutOfTurn => "The event does not answer the action".to_owned(),
    }
}

} // verus!
