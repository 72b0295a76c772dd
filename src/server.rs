use vstd::prelude::*;

verus! {

/// Most requests processed at once; further ones wait for a free slot.
pub const CONCURRENCY_LIMIT: usize = 64;

/// Seconds a request may take before it is aborted with a timeout response.
pub const REQUEST_TIMEOUT_SECS: u64 = 30;

/// TCP port the server listens on, on all interfaces.
pub const LISTEN_PORT: u16 = 3000;

/// The local file that `GET /cargo` serves verbatim.
pub const SERVED_FILE: &'static str = "Cargo.toml";

/// Body of the response to `GET /`.
pub fn root() -> (r: &'static str)
    ensures
        r@ == "Hello, Axum!"@,
{
    "Hello, Axum!"
}

/// Phase of the server's lifetime.
#[derive(Clone, Copy, Debug, PartialEq, Eq, Structural)]
pub enum Phase {
    /// Connections are accepted and requests processed.
    Serving,
    /// No new connections are accepted; requests in flight run to completion.
    Draining,
}

/// An operating-system signal that asks the server to stop.
#[derive(Clone, Copy, Debug, PartialEq, Eq, Structural)]
pub enum StopSignal {
    Interrupt,
    Terminate,
}

/// Whether the server waits for `signal`: the interrupt always, the terminate
/// signal only where the platform has one (elsewhere it never arrives).
pub open spec fn spec_listens_for(signal: StopSignal, terminate_supported: bool) -> bool {
    signal == StopSignal::Interrupt || terminate_supported
}

/// Whether the server waits for `signal` on a platform that does, or does not,
/// have a terminate signal.
pub fn listens_for(signal: StopSignal, terminate_supported: bool) -> (r: bool)
    ensures
        r == spec_listens_for(signal, terminate_supported),
{
    match signal {
        StopSignal::Interrupt => true,
        StopSignal::Terminate => terminate_supported,
    }
}

/// The phase after `signal` arrives in `phase`: a signal the server waits for
/// starts the drain, and a draining server keeps draining.
pub open spec fn spec_next_phase(phase: Phase, signal: StopSignal, terminate_supported: bool) -> Phase {
    if spec_listens_for(signal, terminate_supported) {
        Phase::Draining
    } else {
        phase
    }
}

/// The phase the server moves to when `signal` arrives in `phase`.
pub fn next_phase(phase: Phase, signal: StopSignal, terminate_supported: bool) -> (r: Phase)
    ensures
        r == spec_next_phase(phase, signal, terminate_supported),
{
    if listens_for(signal, terminate_supported) {
        Phase::Draining
    } else {
        phase
    }
}

/// Whether new connections are accepted in `phase`.
pub open spec fn spec_accepts_connections(phase: Phase) -> bool {
    phase == Phase::Serving
}

/// Whether the server accepts new connections in `phase`.
pub fn accepts_connections(phase: Phase) -> (r: bool)
    ensures
        r == spec_accepts_connections(phase),
{
    match phase {
        Phase::Serving => true,
        Phase::Draining => false,
    }
}

/// The phase reached from `phase` after the signals of `signals`, in order.
pub open spec fn phase_after(phase: Phase, signals: Seq<StopSignal>, terminate_supported: bool) -> Phase
    decreases signals.len(),
{
    if signals.len() == 0 {
        phase
    } else {
        phase_after(spec_next_phase(phase, signals[0], terminate_supported), signals.drop_first(), terminate_supported)
    }
}

/// Once an interrupt arrives, or a terminate signal where the platform has
/// one, no new connection is accepted, whatever further signals come.
pub proof fn lemma_no_new_connections_after_signal(
    first: StopSignal,
    later: Seq<StopSignal>,
    terminate_supported: bool,
)
    requires
        spec_listens_for(first, terminate_supported),
    ensures
        !spec_accepts_connections(
            phase_after(spec_next_phase(Phase::Serving, first, terminate_supported), later, terminate_supported),
        ),
{
    lemma_draining_stays(later, terminate_supported);
}

/// A draining server keeps draining, whatever signals follow.
pub proof fn lemma_draining_stays(signals: Seq<StopSignal>, terminate_supported: bool)
    ensures
        phase_after(Phase::Draining, signals, terminate_supported) == Phase::Draining,
    decreases signals.len(),
{
    if signals.len() > 0 {
        lemma_draining_stays(signals.drop_first(), terminate_supported);
    }
}

} // verus!
