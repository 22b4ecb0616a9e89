use vstd::prelude::*;
use crate::program::ReportField;

verus! {

/// One acknowledgment event, with the datapath signals that the aggregation
/// program reads.
#[derive(Clone, Copy, Debug, PartialEq, Eq, Structural)]
pub struct AckEvent {
    /// Microseconds since the previous event.
    pub micros_elapsed: u64,
    pub rtt_sample_us: u64,
    pub packets_in_flight: u64,
    pub bytes_acked: u64,
    pub packets_misordered: u64,
    pub lost_pkts_sample: u64,
    pub was_timeout: bool,
}

/// The values of the `Report` record between two reports.
#[derive(Clone, Copy, Debug, PartialEq, Eq, Structural)]
pub struct ReportValues {
    pub rtt: u64,
    pub acked: u64,
    pub sacked: u64,
    pub inflight: u64,
    pub loss: u64,
    pub timeout: bool,
}

/// The declared initial values, to which every field returns after a report.
pub open spec fn initial_report() -> ReportValues {
    ReportValues { rtt: 0, acked: 0, sacked: 0, inflight: 0, loss: 0, timeout: false }
}

/// A model of how the datapath runs the aggregation program for one
/// connection: the report being built and the microseconds since the last
/// report. The datapath itself runs the program text; this model follows the
/// same report schema and is where the program's reporting behaviour is
/// proved.
#[derive(Clone, Copy, Debug, PartialEq, Eq, Structural)]
pub struct Aggregator {
    pub report: ReportValues,
    pub micros: u64,
}

/// The report after the unconditional update from an event's signals.
pub open spec fn updated(r: ReportValues, ev: AckEvent) -> ReportValues {
    ReportValues {
        rtt: ev.rtt_sample_us,
        acked: r.acked.wrapping_add(ev.bytes_acked),
        sacked: r.sacked.wrapping_add(ev.packets_misordered),
        inflight: ev.packets_in_flight,
        loss: ev.lost_pkts_sample,
        timeout: ev.was_timeout,
    }
}

impl Aggregator {
    /// One event under the program: update every field, then report at once
    /// on timeout or loss, else report once more than one RTT has passed;
    /// a report resets the fields and the elapsed time.
    pub open spec fn spec_step(self, ev: AckEvent) -> (Aggregator, Option<ReportValues>) {
        let report = updated(self.report, ev);
        let micros = self.micros.saturating_add(ev.micros_elapsed);
        if report.timeout || report.loss > 0 || micros > ev.rtt_sample_us {
            (Aggregator { report: initial_report(), micros: 0 }, Some(report))
        } else {
            (Aggregator { report, micros }, None)
        }
    }

    /// The state when the program has just been installed.
    pub fn new() -> (r: Aggregator)
        ensures
            r == (Aggregator { report: initial_report(), micros: 0 }),
    {
        Aggregator {
            report: ReportValues { rtt: 0, acked: 0, sacked: 0, inflight: 0, loss: 0, timeout: false },
            micros: 0,
        }
    }

    /// Runs the program on one event and returns the report it emits, if any.
    pub fn on_event(&mut self, ev: &AckEvent) -> (r: Option<ReportValues>)
        ensures
            (*final(self), r) == old(self).spec_step(*ev),
    {
        let report = ReportValues {
            rtt: ev.rtt_sample_us,
            acked: self.report.acked.wrapping_add(ev.bytes_acked),
            sacked: self.report.sacked.wrapping_add(ev.packets_misordered),
            inflight: ev.packets_in_flight,
            loss: ev.lost_pkts_sample,
            timeout: ev.was_timeout,
        };
        let micros = self.micros.saturating_add(ev.micros_elapsed);
        if report.timeout || report.loss > 0 || micros > ev.rtt_sample_us {
            self.report = ReportValues { rtt: 0, acked: 0, sacked: 0, inflight: 0, loss: 0, timeout: false };
            self.micros = 0;
            Some(report)
        } else {
            self.report = report;
            self.micros = micros;
            None
        }
    }
}

/// A field's value in the model, with the timeout flag as 0 or 1.
pub open spec fn value_of(r: ReportValues, f: ReportField) -> u64 {
    match f {
        ReportField::Rtt => r.rtt,
        ReportField::Acked => r.acked,
        ReportField::Sacked => r.sacked,
        ReportField::Inflight => r.inflight,
        ReportField::Loss => r.loss,
        ReportField::Timeout => if r.timeout { 1 } else { 0 },
    }
}

/// The event's value for the datapath signal that the schema assigns to a
/// field (`ReportField::spec_signal`).
pub open spec fn signal_of(ev: AckEvent, f: ReportField) -> u64 {
    match f {
        ReportField::Rtt => ev.rtt_sample_us,
        ReportField::Acked => ev.bytes_acked,
        ReportField::Sacked => ev.packets_misordered,
        ReportField::Inflight => ev.packets_in_flight,
        ReportField::Loss => ev.lost_pkts_sample,
        ReportField::Timeout => if ev.was_timeout { 1 } else { 0 },
    }
}

/// The model updates each field as the schema that builds the program text
/// says: fields that accumulate add their signal, the others take it; and
/// every field starts from, and returns to, the declared initial value.
pub proof fn lemma_model_follows_schema(r: ReportValues, ev: AckEvent, f: ReportField)
    ensures
        value_of(updated(r, ev), f) == if f.spec_accumulates() {
            value_of(r, f).wrapping_add(signal_of(ev, f))
        } else {
            signal_of(ev, f)
        },
        value_of(initial_report(), f) == 0,
        f.spec_default() == (if f == ReportField::Timeout { "false"@ } else { "0"@ }),
{
}

/// The state after a sequence of events.
pub open spec fn run_events(a: Aggregator, evs: Seq<AckEvent>) -> Aggregator
    decreases evs.len(),
{
    if evs.len() == 0 {
        a
    } else {
        run_events(a, evs.drop_last()).spec_step(evs.last()).0
    }
}

/// An event with loss or a timeout is reported in that same event, whatever
/// the state.
pub proof fn lemma_loss_reported_at_once(a: Aggregator, ev: AckEvent)
    requires
        ev.was_timeout || ev.lost_pkts_sample > 0,
    ensures
        a.spec_step(ev).1 == Some(updated(a.report, ev)),
        a.spec_step(ev).0.micros == 0,
{
}

/// Under a stream of events that all carry the same RTT sample `rtt`, the
/// time since the last report never exceeds `rtt` at the end of an event:
/// an event that would take it past `rtt` emits a report (where `rtt` is
/// below the counter's largest value, at which the counter saturates).
pub proof fn lemma_report_interval_bounded(a: Aggregator, evs: Seq<AckEvent>, rtt: u64)
    requires
        a.micros <= rtt,
        forall|k: int| 0 <= k < evs.len() ==> (#[trigger] evs[k]).rtt_sample_us == rtt,
    ensures
        run_events(a, evs).micros <= rtt,
        forall|k: int| 0 <= k < evs.len() ==> {
            let before = #[trigger] run_events(a, evs.take(k));
            rtt < u64::MAX && before.micros + evs[k].micros_elapsed > rtt ==> before.spec_step(evs[k]).1 is Some
        },
    decreases evs.len(),
{
    if evs.len() > 0 {
        let init = evs.drop_last();
        assert forall|k: int| 0 <= k < init.len() implies (#[trigger] init[k]).rtt_sample_us == rtt by {
            assert(init[k] == evs[k]);
        }
        lemma_report_interval_bounded(a, init, rtt);
        assert forall|k: int| 0 <= k < evs.len() implies {
            let before = #[trigger] run_events(a, evs.take(k));
            rtt < u64::MAX && before.micros + evs[k].micros_elapsed > rtt ==> before.spec_step(evs[k]).1 is Some
        } by {
            if k < init.len() {
                assert(evs.take(k) =~= init.take(k));
                assert(init[k] == evs[k]);
            } else {
                assert(evs.take(k) =~= init);
            }
        }
    }
}

} // verus!
