//! Relocation decisions: what the mover does for one file, given what the
//! filesystem reported. The caller performs the filesystem actions and
//! feeds the outcomes back in.

use vstd::prelude::*;

verus! {

/// How the attempt to rename the source onto the destination ended.
#[derive(Clone, Copy, PartialEq, Eq, Structural, Debug)]
pub enum RenameOutcome {
    /// The rename succeeded.
    Renamed,
    /// The rename failed because source and destination are on different
    /// filesystems.
    CrossDevice,
    /// The rename failed for any other reason.
    Failed,
}

/// What the mover does after the rename attempt.
#[derive(Clone, Copy, PartialEq, Eq, Structural, Debug)]
pub enum TransferStep {
    /// The file is at the destination; nothing is left to do.
    Done,
    /// Copy the bytes to the destination, then remove the source.
    CopyThenRemove,
    /// Surface the rename error as-is.
    Fail,
}

/// The move policy: an atomic rename when possible, copy-then-remove only
/// on a cross-filesystem failure, and any other failure propagated.
pub open spec fn move_step_spec(outcome: RenameOutcome) -> TransferStep {
    match outcome {
        RenameOutcome::Renamed => TransferStep::Done,
        RenameOutcome::CrossDevice => TransferStep::CopyThenRemove,
        RenameOutcome::Failed => TransferStep::Fail,
    }
}

/// Decides how a move proceeds after the rename attempt: only a
/// cross-filesystem failure falls back to copy-then-remove.
pub fn move_file(outcome: RenameOutcome) -> (step: TransferStep)
    ensures
        step == move_step_spec(outcome),
{
    match outcome {
        RenameOutcome::Renamed => TransferStep::Done,
        RenameOutcome::CrossDevice => TransferStep::CopyThenRemove,
        RenameOutcome::Failed => TransferStep::Fail,
    }
}

/// What the relocator does for one file.
#[derive(Clone, Copy, PartialEq, Eq, Structural, Debug)]
pub enum RelocateAction {
    /// The destination already exists: leave everything untouched.
    Skip,
    /// Copy the file, leaving the source in place.
    Copy,
    /// Move the file.
    Move,
}

/// The relocation policy: an existing destination is never overwritten,
/// and otherwise copy-only mode copies where a move would move.
pub open spec fn relocate_action_spec(destination_exists: bool, copy_only: bool) -> RelocateAction {
    if destination_exists {
        RelocateAction::Skip
    } else if copy_only {
        RelocateAction::Copy
    } else {
        RelocateAction::Move
    }
}

/// Decides what happens to one file once its destination is derived and
/// its existence checked.
pub fn plan_relocation(destination_exists: bool, copy_only: bool) -> (a: RelocateAction)
    ensures
        a == relocate_action_spec(destination_exists, copy_only),
{
    if destination_exists {
        RelocateAction::Skip
    } else if copy_only {
        RelocateAction::Copy
    } else {
        RelocateAction::Move
    }
}

/// Relocating the same source into the same destination context twice
/// leaves exactly one file: the derivation is deterministic, so the second
/// attempt sees its own earlier destination and is skipped — never an
/// overwrite, whatever the mode.
pub proof fn lemma_second_attempt_skips(copy_only: bool)
    ensures
        relocate_action_spec(true, copy_only) is Skip,
{
}

} // verus!
