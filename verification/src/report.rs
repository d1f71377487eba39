//! Per-host results and the batch report.
//!
//! One batch probes every host of the input list and emits exactly one
//! result per host: the report's cardinality equals the input's, no
//! host is dropped and none is added. The runner collects results in
//! whatever order the probes finish; a caller that needs input order
//! correlates by hostname.

use vstd::prelude::*;

use crate::probe::classify;
use crate::probe::classify_event;
use crate::probe::ProbeEvent;
use crate::probe::ProbeEventView;
use crate::probe::ProbeOutcome;
use crate::probe::ProbeOutcomeView;

verus! {

/// The unit the engine emits per input host: the hostname probed and
/// its probe's outcome. Created once per target, immutable after.
pub struct ProbeResult {
    pub host: String,
    pub outcome: ProbeOutcome,
}

/// Mathematical image of a `ProbeResult`.
pub struct ProbeResultView {
    pub host: Seq<char>,
    pub outcome: ProbeOutcomeView,
}

impl View for ProbeResult {
    type V = ProbeResultView;

    open spec fn view(&self) -> ProbeResultView {
        ProbeResultView { host: self.host@, outcome: self.outcome@ }
    }
}

/// Build one result from a host and the event its probe ended in.
pub fn make_result(host: &String, event: &ProbeEvent) -> (r: ProbeResult)
    ensures
        r@ == (ProbeResultView { host: host@, outcome: classify_event(event@) }),
{
    ProbeResult { host: host.clone(), outcome: classify(event) }
}

/// The hostnames of a list, as sequences of characters.
pub open spec fn host_views(hosts: Seq<String>) -> Seq<Seq<char>> {
    hosts.map_values(|h: String| h@)
}

/// The images of a list of events.
pub open spec fn event_views(events: Seq<ProbeEvent>) -> Seq<ProbeEventView> {
    events.map_values(|e: ProbeEvent| e@)
}

/// What a batch's report holds, as a function of the input hosts and
/// of the events their probes ended in: one record per host, the i-th
/// record pairing the i-th host with its event's classification.
pub open spec fn report_of(hosts: Seq<Seq<char>>, events: Seq<ProbeEventView>) -> Seq<
    ProbeResultView,
> {
    Seq::new(
        hosts.len(),
        |i: int| ProbeResultView { host: hosts[i], outcome: classify_event(events[i]) },
    )
}

/// The collection of all results of one batch invocation. It holds no
/// other state: the engine retains nothing across batches.
pub struct BatchReport {
    results: Vec<ProbeResult>,
}

impl View for BatchReport {
    type V = Seq<ProbeResultView>;

    closed spec fn view(&self) -> Seq<ProbeResultView> {
        self.results@.map_values(|r: ProbeResult| r@)
    }
}

/// How many results of a batch are reachable.
pub open spec fn reachable_count_of(s: Seq<ProbeResultView>) -> nat
    decreases s.len(),
{
    if s.len() == 0 {
        0
    } else {
        reachable_count_of(s.drop_last()) + (if s.last().outcome is Reachable {
            1nat
        } else {
            0nat
        })
    }
}

/// No batch holds more reachable results than results.
pub proof fn lemma_reachable_count_le_len(s: Seq<ProbeResultView>)
    ensures
        reachable_count_of(s) <= s.len(),
    decreases s.len(),
{
    if s.len() > 0 {
        lemma_reachable_count_le_len(s.drop_last());
    }
}

impl BatchReport {
    /// How many results the batch holds.
    pub fn len(&self) -> (n: usize)
        ensures
            n == self@.len(),
    {
        self.results.len()
    }

    /// Whether the batch holds no result at all.
    pub fn is_empty(&self) -> (b: bool)
        ensures
            b == (self@.len() == 0),
    {
        self.results.len() == 0
    }

    /// The i-th result, in collection order.
    pub fn get(&self, i: usize) -> (r: &ProbeResult)
        requires
            i < self@.len(),
        ensures
            r@ == self@[i as int],
    {
        &self.results[i]
    }

    /// All results, in collection order.
    pub fn results(&self) -> (v: &Vec<ProbeResult>)
        ensures
            v@.len() == self@.len(),
            forall|i: int| 0 <= i < v@.len() ==> v@[i]@ == self@[i],
    {
        &self.results
    }

    /// Give up the report and keep its results.
    pub fn into_results(self) -> (v: Vec<ProbeResult>)
        ensures
            v@.len() == self@.len(),
            forall|i: int| 0 <= i < v@.len() ==> v@[i]@ == self@[i],
    {
        self.results
    }

    /// How many results are reachable.
    pub fn reachable_count(&self) -> (n: usize)
        ensures
            n == reachable_count_of(self@),
    {
        let ghost s = self@;
        let n = self.results.len();
        let mut count: usize = 0;
        let mut i: usize = 0;
        while i < n
            invariant
                n == s.len(),
                s == self@,
                i <= n,
                count <= i,
                count == reachable_count_of(s.take(i as int)),
            decreases n - i,
        {
            proof {
                assert(s.take(i + 1).drop_last() =~= s.take(i as int));
                assert(s.take(i + 1).last() == s[i as int]);
            }
            let r = &self.results[i];
            match &r.outcome {
                ProbeOutcome::Reachable { .. } => {
                    count = count + 1;
                },
                ProbeOutcome::Unreachable { .. } => {
                },
            }
            i = i + 1;
        }
        proof {
            assert(s.take(n as int) =~= s);
        }
        count
    }

    /// How many results are unreachable: together with the reachable
    /// ones they account for every result, each exactly once.
    pub fn unreachable_count(&self) -> (n: usize)
        ensures
            n + reachable_count_of(self@) == self@.len(),
    {
        proof {
            lemma_reachable_count_le_len(self@);
        }
        let total = self.results.len();
        let reach = self.reachable_count();
        total - reach
    }
}

/// Pair each host with the event its probe ended in and collect the
/// classified results into the batch's report.
pub fn build_report(hosts: &Vec<String>, events: &Vec<ProbeEvent>) -> (report: BatchReport)
    requires
        hosts@.len() == events@.len(),
    ensures
        report@ == report_of(host_views(hosts@), event_views(events@)),
        report@.len() == hosts@.len(),
{
    let n = hosts.len();
    let mut results: Vec<ProbeResult> = Vec::new();
    let mut i: usize = 0;
    while i < n
        invariant
            n == hosts@.len(),
            hosts@.len() == events@.len(),
            i <= n,
            results@.len() == i as nat,
            forall|j: int|
                0 <= j < i ==> results@[j]@ == report_of(host_views(hosts@), event_views(events@))[j],
        decreases n - i,
    {
        let r = make_result(&hosts[i], &events[i]);
        results.push(r);
        i = i + 1;
    }
    let report = BatchReport { results };
    proof {
        assert(report@ =~= report_of(host_views(hosts@), event_views(events@)));
    }
    report
}

/// Every batch preserves cardinality: the report holds exactly one
/// record per input host, whatever each probe ended in — no host is
/// dropped and none is duplicated beyond the input's own duplication.
pub proof fn lemma_report_len(hosts: Seq<Seq<char>>, events: Seq<ProbeEventView>)
    ensures
        report_of(hosts, events).len() == hosts.len(),
{
}

/// An empty host list yields an empty report, not an error.
pub proof fn lemma_empty_batch(hosts: Seq<Seq<char>>, events: Seq<ProbeEventView>)
    requires
        hosts.len() == 0,
    ensures
        report_of(hosts, events).len() == 0,
{
}

/// A batch's report is a function of the host list and the probes'
/// terminal events alone: two runs over the same inputs yield equal
/// reports, so no state leaks from one run into the next.
pub proof fn lemma_batch_deterministic(
    hosts: Seq<Seq<char>>,
    events: Seq<ProbeEventView>,
    r1: Seq<ProbeResultView>,
    r2: Seq<ProbeResultView>,
)
    requires
        r1 == report_of(hosts, events),
        r2 == report_of(hosts, events),
    ensures
        r1 == r2,
{
}

} // verus!
