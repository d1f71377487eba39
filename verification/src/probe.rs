//! Probe events, outcomes, and their classification.
//!
//! Each probe is one attempt to open a TCP connection to `host:port`,
//! raced against a timeout. The race ends in exactly one terminal
//! event: the connection completed, the attempt failed, or the timeout
//! fired first. Classification maps that event to the probe's outcome:
//! reachable with an elapsed time, or unreachable with a diagnostic
//! detail text.

use vstd::prelude::*;

verus! {

/// The batch-wide configuration shared by every probe: the target port
/// and the per-probe timeout in milliseconds. The timeout must be
/// positive; validating that is the configuration loader's job, so it
/// is a precondition here, not a runtime check.
#[derive(Clone, Copy, Debug)]
pub struct ProbeConfig {
    pub port: u16,
    pub timeout_ms: u64,
}

impl ProbeConfig {
    /// A well-formed configuration has a positive timeout.
    pub open spec fn wf(&self) -> bool {
        self.timeout_ms > 0
    }

    pub fn new(port: u16, timeout_ms: u64) -> (c: ProbeConfig)
        requires
            timeout_ms > 0,
        ensures
            c.port == port,
            c.timeout_ms == timeout_ms,
            c.wf(),
    {
        ProbeConfig { port, timeout_ms }
    }
}

/// The terminal event of one probe's race between its connection
/// attempt and its timeout, as observed by the runner.
pub enum ProbeEvent {
    /// The connection attempt completed first; the time it took, in
    /// milliseconds, measured on a monotonic clock.
    Connected { elapsed_ms: u64 },
    /// The connection attempt failed first (refused, unreachable, name
    /// resolution failure); the underlying failure's description.
    Failed { detail: String },
    /// The timeout elapsed first; the in-flight attempt was abandoned.
    TimedOut,
}

/// Mathematical image of a `ProbeEvent`.
pub enum ProbeEventView {
    Connected { elapsed_ms: u64 },
    Failed { detail: Seq<char> },
    TimedOut,
}

impl View for ProbeEvent {
    type V = ProbeEventView;

    open spec fn view(&self) -> ProbeEventView {
        match self {
            ProbeEvent::Connected { elapsed_ms } => ProbeEventView::Connected {
                elapsed_ms: *elapsed_ms,
            },
            ProbeEvent::Failed { detail } => ProbeEventView::Failed { detail: detail@ },
            ProbeEvent::TimedOut => ProbeEventView::TimedOut,
        }
    }
}

/// The terminal classification of a probe: exactly two states. A
/// reachable host carries the elapsed time of its successful
/// connection; an unreachable one carries a free-text diagnostic that
/// distinguishes, for display only, a failed attempt from an expired
/// timeout.
pub enum ProbeOutcome {
    Reachable { elapsed_ms: u64 },
    Unreachable { detail: String },
}

/// Mathematical image of a `ProbeOutcome`.
pub enum ProbeOutcomeView {
    Reachable { elapsed_ms: u64 },
    Unreachable { detail: Seq<char> },
}

impl View for ProbeOutcome {
    type V = ProbeOutcomeView;

    open spec fn view(&self) -> ProbeOutcomeView {
        match self {
            ProbeOutcome::Reachable { elapsed_ms } => ProbeOutcomeView::Reachable {
                elapsed_ms: *elapsed_ms,
            },
            ProbeOutcome::Unreachable { detail } => ProbeOutcomeView::Unreachable {
                detail: detail@,
            },
        }
    }
}

/// The diagnostic detail reported when a probe's timeout fires first.
pub open spec fn timeout_detail_text() -> Seq<char> {
    "timeout reached"@
}

/// What each terminal event classifies to: a completed connection is
/// reachable with its elapsed time; a failed attempt is unreachable
/// with the failure's description; an expired timeout is unreachable
/// with the timeout detail text.
pub open spec fn classify_event(e: ProbeEventView) -> ProbeOutcomeView {
    match e {
        ProbeEventView::Connected { elapsed_ms } => ProbeOutcomeView::Reachable { elapsed_ms },
        ProbeEventView::Failed { detail } => ProbeOutcomeView::Unreachable { detail },
        ProbeEventView::TimedOut => ProbeOutcomeView::Unreachable {
            detail: timeout_detail_text(),
        },
    }
}

/// Classify one probe's terminal event into its outcome.
pub fn classify(event: &ProbeEvent) -> (outcome: ProbeOutcome)
    ensures
        outcome@ == classify_event(event@),
{
    match event {
        ProbeEvent::Connected { elapsed_ms } => ProbeOutcome::Reachable {
            elapsed_ms: *elapsed_ms,
        },
        ProbeEvent::Failed { detail } => ProbeOutcome::Unreachable { detail: detail.clone() },
        ProbeEvent::TimedOut => ProbeOutcome::Unreachable {
            detail: "timeout reached".to_owned(),
        },
    }
}

/// An event is consistent with the configured timeout when a completed
/// connection reports an elapsed time no greater than the timeout: the
/// race hands the connection the win only if it beat the clock.
pub open spec fn event_within(e: ProbeEventView, timeout_ms: u64) -> bool {
    e matches ProbeEventView::Connected { elapsed_ms } ==> elapsed_ms <= timeout_ms
}

/// A reachable outcome's elapsed time is bounded by the timeout that
/// its probe raced against (and, being unsigned, is never negative).
pub proof fn lemma_reachable_elapsed_bounded(e: ProbeEventView, timeout_ms: u64)
    requires
        event_within(e, timeout_ms),
    ensures
        classify_event(e) matches ProbeOutcomeView::Reachable { elapsed_ms } ==> elapsed_ms
            <= timeout_ms,
{
}

/// A probe whose timeout fired first is reported unreachable, with the
/// detail text that identifies a timeout.
pub proof fn lemma_timeout_yields_timeout_detail(e: ProbeEventView)
    requires
        e is TimedOut,
    ensures
        classify_event(e) == (ProbeOutcomeView::Unreachable { detail: timeout_detail_text() }),
{
}

} // verus!
