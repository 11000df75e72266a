//! Construction-time decisions for the completion-bridge adapter.
//!
//! On the platform without a readiness poller, the adapter opens the device
//! in asynchronous mode under the extended device namespace, applies the
//! caller's settings, overrides the device timeout parameters, and then keeps
//! two logical views of the one handle: a configuration-only synchronous view
//! and an async byte-pipe view that carries every transfer. The path
//! composition, the timeout values, the one-close discipline of the two
//! views, and the protocol's advance-or-abort decision are verified here; the
//! platform layer only performs each OS call and reports how it went.

use vstd::prelude::*;

verus! {

use crate::errors::{Error, OsFailure};

/// The extended device-namespace prefix — backslash, backslash, dot,
/// backslash — in wide characters.
pub open spec fn namespace_prefix() -> Seq<u16> {
    seq![92u16, 92u16, 46u16, 92u16]
}

/// Rewrites a port name, already widened by the caller, to the form the
/// asynchronous open call wants: the extended device-namespace prefix, the
/// name unchanged, and a terminating NUL.
pub fn device_namespace_path(port: &Vec<u16>) -> (path: Vec<u16>)
    ensures
        path@ == namespace_prefix() + port@ + seq![0u16],
        path@.len() == port@.len() + 5,
{
    let mut path: Vec<u16> = Vec::new();
    path.push(92);
    path.push(92);
    path.push(46);
    path.push(92);
    let mut i: usize = 0;
    assert(path@ =~= namespace_prefix() + port@.take(0));
    while i < port.len()
        invariant
            i <= port@.len(),
            path@ == namespace_prefix() + port@.take(i as int),
        decreases port@.len() - i,
    {
        path.push(port[i]);
        assert(path@ =~= namespace_prefix() + port@.take(i as int + 1));
        i = i + 1;
    }
    assert(port@.take(port@.len() as int) =~= port@);
    path.push(0);
    assert(path@ =~= namespace_prefix() + port@ + seq![0u16]);
    path
}

/// The device timeout parameter block, field for field.
#[derive(Clone, Copy, Debug, PartialEq, Eq, Structural)]
pub struct CommTimeouts {
    /// Longest quiet gap allowed between two received bytes, in
    /// milliseconds; zero would disable the gap check.
    pub read_interval: u32,
    /// Per-byte contribution to the total read timeout; zero disables it.
    pub read_total_multiplier: u32,
    /// Constant part of the total read timeout; zero disables it.
    pub read_total_constant: u32,
    /// Per-byte contribution to the total write timeout; zero disables it.
    pub write_total_multiplier: u32,
    /// Constant part of the total write timeout; zero disables it.
    pub write_total_constant: u32,
}

/// A read under these parameters waits indefinitely for the first byte —
/// never completing empty — and then returns once the line stays quiet for
/// the (non-zero) inter-byte quantum.
pub open spec fn waits_for_first_byte(t: CommTimeouts) -> bool {
    t.read_interval >= 1 && t.read_total_multiplier == 0 && t.read_total_constant == 0
}

/// The override applied at construction: a one-millisecond inter-byte
/// quantum, total read timeouts disabled so a read blocks until at least one
/// byte arrives, and write timeouts disabled. This forecloses spurious
/// empty-payload completions, which a caller could not tell from the peer
/// closing the line.
pub fn quiet_quantum_timeouts() -> (t: CommTimeouts)
    ensures
        t == (CommTimeouts {
            read_interval: 1u32,
            read_total_multiplier: 0u32,
            read_total_constant: 0u32,
            write_total_multiplier: 0u32,
            write_total_constant: 0u32,
        }),
        waits_for_first_byte(t),
{
    CommTimeouts {
        read_interval: 1,
        read_total_multiplier: 0,
        read_total_constant: 0,
        write_total_multiplier: 0,
        write_total_constant: 0,
    }
}

/// The two logical views of the one OS handle, each marked with whether its
/// teardown closes the handle.
#[derive(Clone, Copy, Debug, PartialEq, Eq, Structural)]
pub struct HandleViews {
    /// The configuration-capable synchronous view.
    pub config_closes: bool,
    /// The async byte-pipe view that carries every transfer.
    pub transfer_closes: bool,
}

/// The handle must be closed exactly once, however many views of it exist:
/// exactly one view may perform the close.
pub open spec fn closes_once(v: HandleViews) -> bool {
    v.config_closes != v.transfer_closes
}

/// The split made at construction: the transfer view owns the close, and the
/// configuration view's close is suppressed by design — a deliberate
/// shared-ownership decision, not a convention left to chance.
pub fn split_handle_views() -> (v: HandleViews)
    ensures
        closes_once(v),
        v.transfer_closes,
        !v.config_closes,
{
    HandleViews { config_closes: false, transfer_closes: true }
}

/// How many closes teardown performs: one per view that is marked closing.
/// Under the one-close discipline that is exactly one, so the handle is
/// closed once no matter how many logical owners it had.
pub fn teardown_close_count(v: &HandleViews) -> (n: u32)
    ensures
        n == (if v.config_closes { 1int } else { 0int }) + (if v.transfer_closes { 1int } else { 0int }),
        closes_once(*v) ==> n == 1,
{
    let mut n: u32 = 0;
    if v.config_closes {
        n = n + 1;
    }
    if v.transfer_closes {
        n = n + 1;
    }
    n
}

/// The stations of the construction protocol, in the order they run.
#[derive(Clone, Copy, Debug, PartialEq, Eq, Structural)]
pub enum BridgeStage {
    /// Open the device handle asynchronously under the namespace path.
    OpenHandle,
    /// Apply the caller's serial settings through the configuration view.
    ApplySettings,
    /// Override the device timeout parameters.
    OverrideTimeouts,
    /// Hand the handle to the async byte-pipe bridge.
    BridgeHandle,
    /// Construction is complete.
    Ready,
}

/// The station that follows a successful step.
pub open spec fn bridge_stage_after(stage: BridgeStage) -> BridgeStage {
    match stage {
        BridgeStage::OpenHandle => BridgeStage::ApplySettings,
        BridgeStage::ApplySettings => BridgeStage::OverrideTimeouts,
        BridgeStage::OverrideTimeouts => BridgeStage::BridgeHandle,
        BridgeStage::BridgeHandle => BridgeStage::Ready,
        BridgeStage::Ready => BridgeStage::Ready,
    }
}

/// The error a failure at each station surfaces: a failed open is a
/// device-open error, failed settings a configuration error, a failed
/// timeout override its own kind, and a failure to bridge the handle a
/// plain I/O error. Each aborts construction at once.
pub open spec fn bridge_stage_error(stage: BridgeStage, failure: OsFailure) -> Error {
    match stage {
        BridgeStage::OpenHandle => Error::DeviceOpen(failure),
        BridgeStage::ApplySettings => Error::Configuration(failure),
        BridgeStage::OverrideTimeouts => Error::TimeoutOverride(failure),
        _ => Error::Io(failure),
    }
}

/// One decision of the construction protocol: a successful step advances to
/// the next station, and any failure aborts construction at once, surfacing
/// that station's error.
pub fn bridge_advance(stage: BridgeStage, outcome: Result<(), OsFailure>) -> (r: Result<
    BridgeStage,
    Error,
>)
    ensures
        outcome is Ok ==> r == Ok::<BridgeStage, Error>(bridge_stage_after(stage)),
        outcome matches Err(f) ==> r == Err::<BridgeStage, Error>(bridge_stage_error(stage, f)),
{
    match outcome {
        Ok(()) => Ok(
            match stage {
                BridgeStage::OpenHandle => BridgeStage::ApplySettings,
                BridgeStage::ApplySettings => BridgeStage::OverrideTimeouts,
                BridgeStage::OverrideTimeouts => BridgeStage::BridgeHandle,
                BridgeStage::BridgeHandle => BridgeStage::Ready,
                BridgeStage::Ready => BridgeStage::Ready,
            },
        ),
        Err(f) => Err(
            match stage {
                BridgeStage::OpenHandle => Error::DeviceOpen(f),
                BridgeStage::ApplySettings => Error::Configuration(f),
                BridgeStage::OverrideTimeouts => Error::TimeoutOverride(f),
                _ => Error::Io(f),
            },
        ),
    }
}

/// Construction is all or nothing here too: from the first station, a run of
/// four successful steps reaches `Ready`, and no shorter run does.
pub proof fn lemma_bridge_needs_every_step()
    ensures
        bridge_stage_after(
            bridge_stage_after(bridge_stage_after(bridge_stage_after(BridgeStage::OpenHandle))),
        ) == BridgeStage::Ready,
        bridge_stage_after(bridge_stage_after(bridge_stage_after(BridgeStage::OpenHandle)))
            != BridgeStage::Ready,
{
}

} // verus!
