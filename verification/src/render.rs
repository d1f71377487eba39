//! Field-by-field rendering of results for an external representation.
//!
//! The core exposes no wire encoding of its own; a presentation layer
//! (a human-readable printer, a structured emitter) consumes each
//! result through an explicit mapping to four text fields: the server
//! name, an "Online"/"Offline" status label, a response time ("<n>ms"
//! for a reachable host, "N/A" otherwise), and a diagnostic detail.

use vstd::prelude::*;

use crate::probe::ProbeOutcome;
use crate::probe::ProbeOutcomeView;
use crate::report::ProbeResult;
use crate::report::ProbeResultView;

verus! {

/// The decimal digit character for a single digit value.
pub open spec fn digit_char(d: nat) -> char {
    if d == 0 {
        '0'
    } else if d == 1 {
        '1'
    } else if d == 2 {
        '2'
    } else if d == 3 {
        '3'
    } else if d == 4 {
        '4'
    } else if d == 5 {
        '5'
    } else if d == 6 {
        '6'
    } else if d == 7 {
        '7'
    } else if d == 8 {
        '8'
    } else {
        '9'
    }
}

/// The decimal numeral of n, most significant digit first, with no
/// leading zero except for n == 0 itself.
pub open spec fn decimal_of(n: nat) -> Seq<char>
    decreases n,
{
    if n < 10 {
        seq![digit_char(n)]
    } else {
        decimal_of(n / 10).push(digit_char(n % 10))
    }
}

/// The one-character numeral for a single digit value.
pub fn digit_str(d: u64) -> (s: &'static str)
    requires
        d < 10,
    ensures
        s@ == seq![digit_char(d as nat)],
{
    if d == 0 {
        proof {
            reveal_strlit("0");
            assert("0"@ =~= seq![digit_char(0)]);
        }
        "0"
    } else if d == 1 {
        proof {
            reveal_strlit("1");
            assert("1"@ =~= seq![digit_char(1)]);
        }
        "1"
    } else if d == 2 {
        proof {
            reveal_strlit("2");
            assert("2"@ =~= seq![digit_char(2)]);
        }
        "2"
    } else if d == 3 {
        proof {
            reveal_strlit("3");
            assert("3"@ =~= seq![digit_char(3)]);
        }
        "3"
    } else if d == 4 {
        proof {
            reveal_strlit("4");
            assert("4"@ =~= seq![digit_char(4)]);
        }
        "4"
    } else if d == 5 {
        proof {
            reveal_strlit("5");
            assert("5"@ =~= seq![digit_char(5)]);
        }
        "5"
    } else if d == 6 {
        proof {
            reveal_strlit("6");
            assert("6"@ =~= seq![digit_char(6)]);
        }
        "6"
    } else if d == 7 {
        proof {
            reveal_strlit("7");
            assert("7"@ =~= seq![digit_char(7)]);
        }
        "7"
    } else if d == 8 {
        proof {
            reveal_strlit("8");
            assert("8"@ =~= seq![digit_char(8)]);
        }
        "8"
    } else {
        proof {
            reveal_strlit("9");
            assert("9"@ =~= seq![digit_char(9)]);
        }
        "9"
    }
}

/// Render n as its decimal numeral.
pub fn decimal_string(n: u64) -> (s: String)
    ensures
        s@ == decimal_of(n as nat),
    decreases n,
{
    if n < 10 {
        digit_str(n).to_owned()
    } else {
        let rest = decimal_string(n / 10);
        let s = rest.concat(digit_str(n % 10));
        proof {
            assert(s@ =~= decimal_of(n as nat));
        }
        s
    }
}

/// The status label of an outcome, for display and for structured
/// emission: "Online" for a reachable host, "Offline" otherwise.
pub open spec fn status_label_of(o: ProbeOutcomeView) -> Seq<char> {
    if o is Reachable {
        "Online"@
    } else {
        "Offline"@
    }
}

/// The status label of an outcome.
pub fn status_label(o: &ProbeOutcome) -> (s: &'static str)
    ensures
        s@ == status_label_of(o@),
{
    match o {
        ProbeOutcome::Reachable { .. } => "Online",
        ProbeOutcome::Unreachable { .. } => "Offline",
    }
}

/// The response-time field of an outcome: the elapsed milliseconds of
/// a successful connection, with a unit suffix, or "N/A".
pub open spec fn response_time_of(o: ProbeOutcomeView) -> Seq<char> {
    match o {
        ProbeOutcomeView::Reachable { elapsed_ms } => decimal_of(elapsed_ms as nat) + "ms"@,
        ProbeOutcomeView::Unreachable { .. } => "N/A"@,
    }
}

/// Render the response-time field of an outcome.
pub fn response_time_string(o: &ProbeOutcome) -> (s: String)
    ensures
        s@ == response_time_of(o@),
{
    match o {
        ProbeOutcome::Reachable { elapsed_ms } => decimal_string(*elapsed_ms).concat("ms"),
        ProbeOutcome::Unreachable { .. } => "N/A".to_owned(),
    }
}

/// The detail text reported for a connection that succeeded on the
/// given port.
pub open spec fn success_detail_of(port: u16) -> Seq<char> {
    "connection on port "@ + decimal_of(port as nat) + " succeeded"@
}

/// Render the success detail text for a port.
pub fn success_detail(port: u16) -> (s: String)
    ensures
        s@ == success_detail_of(port),
{
    let mut s = "connection on port ".to_owned();
    let num = decimal_string(port as u64);
    s.append(num.as_str());
    s.append(" succeeded");
    proof {
        assert(s@ =~= success_detail_of(port));
    }
    s
}

/// One result rendered for an external representation: four text
/// fields, each pinned to the result it came from.
pub struct RenderedRecord {
    pub server: String,
    pub status: String,
    pub response_time: String,
    pub details: String,
}

/// Mathematical image of a `RenderedRecord`.
pub struct RenderedRecordView {
    pub server: Seq<char>,
    pub status: Seq<char>,
    pub response_time: Seq<char>,
    pub details: Seq<char>,
}

impl View for RenderedRecord {
    type V = RenderedRecordView;

    open spec fn view(&self) -> RenderedRecordView {
        RenderedRecordView {
            server: self.server@,
            status: self.status@,
            response_time: self.response_time@,
            details: self.details@,
        }
    }
}

/// What a result renders to: its hostname, its status label, its
/// response-time field, and its detail — the success text for the
/// batch's port on a reachable host, the diagnostic carried by the
/// outcome on an unreachable one.
pub open spec fn rendered_of(r: ProbeResultView, port: u16) -> RenderedRecordView {
    RenderedRecordView {
        server: r.host,
        status: status_label_of(r.outcome),
        response_time: response_time_of(r.outcome),
        details: match r.outcome {
            ProbeOutcomeView::Reachable { .. } => success_detail_of(port),
            ProbeOutcomeView::Unreachable { detail } => detail,
        },
    }
}

/// Render one result, field by field.
pub fn render_record(r: &ProbeResult, port: u16) -> (rec: RenderedRecord)
    ensures
        rec@ == rendered_of(r@, port),
{
    let details = match &r.outcome {
        ProbeOutcome::Reachable { .. } => success_detail(port),
        ProbeOutcome::Unreachable { detail } => detail.clone(),
    };
    RenderedRecord {
        server: r.host.clone(),
        status: status_label(&r.outcome).to_owned(),
        response_time: response_time_string(&r.outcome),
        details,
    }
}

/// Render every result of a batch, in collection order.
pub fn render_records(results: &Vec<ProbeResult>, port: u16) -> (v: Vec<RenderedRecord>)
    ensures
        v@.len() == results@.len(),
        forall|i: int| 0 <= i < v@.len() ==> v@[i]@ == rendered_of(results@[i]@, port),
{
    let n = results.len();
    let mut v: Vec<RenderedRecord> = Vec::new();
    let mut i: usize = 0;
    while i < n
        invariant
            n == results@.len(),
            i <= n,
            v@.len() == i as nat,
            forall|j: int| 0 <= j < i ==> v@[j]@ == rendered_of(results@[j]@, port),
        decreases n - i,
    {
        let rec = render_record(&results[i], port);
        v.push(rec);
        i = i + 1;
    }
    v
}

} // verus!
