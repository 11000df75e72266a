//! Construction-time decisions for the descriptor-readiness adapter.
//!
//! Construction promotes a freshly opened device to asynchronous use in a
//! fixed order: fetch the line-discipline attributes, edit and commit them,
//! fetch the descriptor's status flags, raise the non-blocking flag, and
//! register the descriptor with the readiness poller. The edits themselves
//! (the minimum-read-size character, the flag word) and the protocol's
//! advance-or-abort decision are verified here; the platform layer only
//! performs each system call and reports how it went.

use vstd::prelude::*;

verus! {

use crate::errors::{Error, OsFailure};

/// Sets the minimum-read-size slot of the line discipline's control
/// characters to one byte — the kernel's blocking fallback then waits for the
/// first byte — and keeps every other slot. The caller supplies the
/// platform's index for that slot.
pub fn set_min_read_one(control_chars: &mut Vec<u8>, min_read_index: usize)
    requires
        min_read_index < old(control_chars)@.len(),
    ensures
        final(control_chars)@ == old(control_chars)@.update(min_read_index as int, 1u8),
{
    let slot = vstd::std_specs::vec::vec_index_mut(control_chars, min_read_index);
    *slot = 1;
}

/// The non-blocking promotion: the descriptor's status-flag word with the
/// given flag raised and every other bit kept.
pub fn raise_status_flag(flags: i32, flag: i32) -> (r: i32)
    ensures
        r == (flags | flag),
        r & flag == flag,
        r & !flag == flags & !flag,
{
    let r = flags | flag;
    assert((flags | flag) & flag == flag) by (bit_vector);
    assert((flags | flag) & !flag == flags & !flag) by (bit_vector);
    r
}

/// The stations of the construction protocol, in the order they run.
#[derive(Clone, Copy, Debug, PartialEq, Eq, Structural)]
pub enum SetupStage {
    /// Fetch the line-discipline attributes.
    FetchAttrs,
    /// Commit the edited attributes.
    CommitAttrs,
    /// Fetch the descriptor's status flags.
    FetchFlags,
    /// Raise the non-blocking flag.
    RaiseNonblock,
    /// Register the descriptor with the readiness poller.
    RegisterReadiness,
    /// Construction is complete.
    Ready,
}

/// The station that follows a successful step.
pub open spec fn stage_after(stage: SetupStage) -> SetupStage {
    match stage {
        SetupStage::FetchAttrs => SetupStage::CommitAttrs,
        SetupStage::CommitAttrs => SetupStage::FetchFlags,
        SetupStage::FetchFlags => SetupStage::RaiseNonblock,
        SetupStage::RaiseNonblock => SetupStage::RegisterReadiness,
        SetupStage::RegisterReadiness => SetupStage::Ready,
        SetupStage::Ready => SetupStage::Ready,
    }
}

/// The error a failure at each station surfaces. Attribute failures are
/// normalized under the configuration kind — the platform layer reduces them
/// to their textual report, so the original code is lost and the message
/// kept; flag and registration failures keep the raw OS code.
pub open spec fn stage_error(stage: SetupStage, failure: OsFailure) -> Error {
    match stage {
        SetupStage::FetchAttrs => Error::Configuration(failure),
        SetupStage::CommitAttrs => Error::Configuration(failure),
        _ => Error::Io(failure),
    }
}

/// One decision of the construction protocol: a successful step advances to
/// the next station, and any failure aborts construction at once, surfacing
/// that station's error.
pub fn setup_advance(stage: SetupStage, outcome: Result<(), OsFailure>) -> (r: Result<
    SetupStage,
    Error,
>)
    ensures
        outcome is Ok ==> r == Ok::<SetupStage, Error>(stage_after(stage)),
        outcome matches Err(f) ==> r == Err::<SetupStage, Error>(stage_error(stage, f)),
{
    match outcome {
        Ok(()) => Ok(
            match stage {
                SetupStage::FetchAttrs => SetupStage::CommitAttrs,
                SetupStage::CommitAttrs => SetupStage::FetchFlags,
                SetupStage::FetchFlags => SetupStage::RaiseNonblock,
                SetupStage::RaiseNonblock => SetupStage::RegisterReadiness,
                SetupStage::RegisterReadiness => SetupStage::Ready,
                SetupStage::Ready => SetupStage::Ready,
            },
        ),
        Err(f) => Err(
            match stage {
                SetupStage::FetchAttrs => Error::Configuration(f),
                SetupStage::CommitAttrs => Error::Configuration(f),
                _ => Error::Io(f),
            },
        ),
    }
}

/// Construction is all or nothing: from the first station, a run of five
/// successful steps reaches `Ready`, and no shorter run does.
pub proof fn lemma_setup_needs_every_step()
    ensures
        stage_after(stage_after(stage_after(stage_after(stage_after(SetupStage::FetchAttrs)))))
            == SetupStage::Ready,
        stage_after(stage_after(stage_after(stage_after(SetupStage::FetchAttrs))))
            != SetupStage::Ready,
{
}

} // verus!
