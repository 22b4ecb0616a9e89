use vstd::prelude::*;
use vstd::string::StringExecFns;

verus! {

/// Name under which the aggregation program is installed in the datapath.
pub const PROGRAM_NAME: &'static str = "DatapathIntervalRTTProg";

/// The fields of the `Report` record that the aggregation program declares.
#[derive(Clone, Copy, Debug, PartialEq, Eq, Structural)]
pub enum ReportField {
    Rtt,
    Acked,
    Sacked,
    Inflight,
    Loss,
    Timeout,
}

/// The `Report` schema, in declaration order: the program declares these
/// fields and the extractor reads them.
pub open spec fn report_schema() -> Seq<ReportField> {
    seq![
        ReportField::Rtt,
        ReportField::Acked,
        ReportField::Sacked,
        ReportField::Inflight,
        ReportField::Loss,
        ReportField::Timeout,
    ]
}

impl ReportField {
    pub open spec fn spec_name(self) -> Seq<char> {
        match self {
            ReportField::Rtt => "rtt"@,
            ReportField::Acked => "acked"@,
            ReportField::Sacked => "sacked"@,
            ReportField::Inflight => "inflight"@,
            ReportField::Loss => "loss"@,
            ReportField::Timeout => "timeout"@,
        }
    }

    /// Fully qualified name of the field, as the datapath scope binds it.
    pub open spec fn spec_path(self) -> Seq<char> {
        "Report."@ + self.spec_name()
    }

    /// The value the field takes when declared and after each report.
    pub open spec fn spec_default(self) -> Seq<char> {
        match self {
            ReportField::Timeout => "false"@,
            _ => "0"@,
        }
    }

    /// The datapath signal that the field is filled from on each event.
    pub open spec fn spec_signal(self) -> Seq<char> {
        match self {
            ReportField::Rtt => "Flow.rtt_sample_us"@,
            ReportField::Acked => "Ack.bytes_acked"@,
            ReportField::Sacked => "Ack.packets_misordered"@,
            ReportField::Inflight => "Flow.packets_in_flight"@,
            ReportField::Loss => "Ack.lost_pkts_sample"@,
            ReportField::Timeout => "Flow.was_timeout"@,
        }
    }

    /// Whether the field sums its signal over the events between two reports
    /// rather than keeping the latest value.
    pub open spec fn spec_accumulates(self) -> bool {
        self == ReportField::Acked || self == ReportField::Sacked
    }

    /// Position of the field in the schema.
    pub open spec fn spec_index(self) -> int {
        match self {
            ReportField::Rtt => 0,
            ReportField::Acked => 1,
            ReportField::Sacked => 2,
            ReportField::Inflight => 3,
            ReportField::Loss => 4,
            ReportField::Timeout => 5,
        }
    }

    pub fn name(&self) -> (r: &'static str)
        ensures
            r@ == self.spec_name(),
    {
        match self {
            ReportField::Rtt => "rtt",
            ReportField::Acked => "acked",
            ReportField::Sacked => "sacked",
            ReportField::Inflight => "inflight",
            ReportField::Loss => "loss",
            ReportField::Timeout => "timeout",
        }
    }

    pub fn path(&self) -> (r: String)
        ensures
            r@ == self.spec_path(),
    {
        let mut s = String::from_str("Report.");
        s.append(self.name());
        s
    }

    fn default_value(&self) -> (r: &'static str)
        ensures
            r@ == self.spec_default(),
    {
        match self {
            ReportField::Timeout => "false",
            _ => "0",
        }
    }

    fn signal(&self) -> (r: &'static str)
        ensures
            r@ == self.spec_signal(),
    {
        match self {
            ReportField::Rtt => "Flow.rtt_sample_us",
            ReportField::Acked => "Ack.bytes_acked",
            ReportField::Sacked => "Ack.packets_misordered",
            ReportField::Inflight => "Flow.packets_in_flight",
            ReportField::Loss => "Ack.lost_pkts_sample",
            ReportField::Timeout => "Flow.was_timeout",
        }
    }
}

/// The extractor and the program agree on the report fields: the schema that
/// both are built from names every field exactly once, each field sits at its
/// own position, the fully qualified names are pairwise distinct, and the
/// program text declares precisely the schema's fields as volatile.
pub proof fn lemma_schema_matches_program()
    ensures
        report_schema().no_duplicates(),
        forall|f: ReportField| #[trigger] report_schema().contains(f),
        forall|f: ReportField| report_schema()[#[trigger] f.spec_index()] == f,
        forall|i: int, j: int|
            0 <= i < j < report_schema().len() ==> #[trigger] report_schema()[i].spec_path()
                != #[trigger] report_schema()[j].spec_path(),
        spec_program_text() == "(def (Report\n"@ + decl_lines(report_schema()) + "))\n(when true\n"@
            + update_lines(report_schema()) + trigger_text(),
{
    reveal_strlit("rtt");
    reveal_strlit("acked");
    reveal_strlit("sacked");
    reveal_strlit("inflight");
    reveal_strlit("loss");
    reveal_strlit("timeout");
    let s = report_schema();
    assert forall|f: ReportField| #[trigger] s.contains(f) by {
        assert(s[f.spec_index()] == f);
    }
    assert forall|i: int, j: int| 0 <= i < j < s.len() implies #[trigger] s[i].spec_path()
        != #[trigger] s[j].spec_path() by {
        assert(s[i].spec_path().len() != s[j].spec_path().len());
    }
}

/// The schema as a vector, in declaration order.
pub fn schema() -> (r: Vec<ReportField>)
    ensures
        r@ == report_schema(),
{
    let r = vec![
        ReportField::Rtt,
        ReportField::Acked,
        ReportField::Sacked,
        ReportField::Inflight,
        ReportField::Loss,
        ReportField::Timeout,
    ];
    assert(r@ =~= report_schema());
    r
}

/// Declaration of one volatile field.
pub open spec fn decl_line(f: ReportField) -> Seq<char> {
    "    (volatile "@ + f.spec_name() + " "@ + f.spec_default() + ")\n"@
}

/// Per-event update of one field from its signal.
pub open spec fn update_line(f: ReportField) -> Seq<char> {
    let value = if f.spec_accumulates() {
        "(+ "@ + f.spec_path() + " "@ + f.spec_signal() + ")"@
    } else {
        f.spec_signal()
    };
    "    (:= "@ + f.spec_path() + " "@ + value + ")\n"@
}

pub open spec fn decl_lines(fs: Seq<ReportField>) -> Seq<char>
    decreases fs.len(),
{
    if fs.len() == 0 {
        Seq::empty()
    } else {
        decl_lines(fs.drop_last()) + decl_line(fs.last())
    }
}

pub open spec fn update_lines(fs: Seq<ReportField>) -> Seq<char>
    decreases fs.len(),
{
    if fs.len() == 0 {
        Seq::empty()
    } else {
        update_lines(fs.drop_last()) + update_line(fs.last())
    }
}

/// Guards that hand control back: at once on loss or timeout, otherwise once
/// more than one RTT has passed since the last report.
pub open spec fn trigger_text() -> Seq<char> {
    "    (fallthrough)\n)\n(when (|| Report.timeout (> Report.loss 0))\n    (report)\n    (:= Micros 0)\n)\n(when (> Micros Flow.rtt_sample_us)\n    (report)\n    (:= Micros 0)\n)\n"@
}

/// The full text of the aggregation program.
pub open spec fn spec_program_text() -> Seq<char> {
    "(def (Report\n"@ + decl_lines(report_schema()) + "))\n(when true\n"@
        + update_lines(report_schema()) + trigger_text()
}

fn append_decl(s: &mut String, f: ReportField)
    ensures
        final(s)@ == old(s)@ + decl_line(f),
{
    s.append("    (volatile ");
    s.append(f.name());
    s.append(" ");
    s.append(f.default_value());
    s.append(")\n");
}

fn append_update(s: &mut String, f: ReportField)
    ensures
        final(s)@ == old(s)@ + update_line(f),
{
    let path = f.path();
    s.append("    (:= ");
    s.append(path.as_str());
    s.append(" ");
    if f == ReportField::Acked || f == ReportField::Sacked {
        s.append("(+ ");
        s.append(path.as_str());
        s.append(" ");
        s.append(f.signal());
        s.append(")");
    } else {
        s.append(f.signal());
    }
    s.append(")\n");
}

/// Builds the aggregation program from the report schema.
pub fn program_text() -> (r: String)
    ensures
        r@ == spec_program_text(),
{
    let fields = schema();
    let mut s = String::from_str("(def (Report\n");
    let ghost start = s@;
    let mut i: usize = 0;
    while i < fields.len()
        invariant
            fields@ == report_schema(),
            i <= fields.len(),
            s@ == start + decl_lines(fields@.take(i as int)),
        decreases fields.len() - i,
    {
        append_decl(&mut s, fields[i]);
        assert(fields@.take(i + 1).drop_last() =~= fields@.take(i as int));
        i = i + 1;
    }
    assert(fields@.take(i as int) =~= fields@);
    s.append("))\n(when true\n");
    let ghost mid = s@;
    let mut j: usize = 0;
    while j < fields.len()
        invariant
            fields@ == report_schema(),
            j <= fields.len(),
            s@ == mid + update_lines(fields@.take(j as int)),
        decreases fields.len() - j,
    {
        append_update(&mut s, fields[j]);
        assert(fields@.take(j + 1).drop_last() =~= fields@.take(j as int));
        j = j + 1;
    }
    assert(fields@.take(j as int) =~= fields@);
    s.append("    (fallthrough)\n)\n(when (|| Report.timeout (> Report.loss 0))\n    (report)\n    (:= Micros 0)\n)\n(when (> Micros Flow.rtt_sample_us)\n    (report)\n    (:= Micros 0)\n)\n");
    s
}

/// The datapath programs to install: the aggregation program under its name.
pub fn init_programs() -> (r: Vec<(&'static str, String)>)
    ensures
        r@.len() == 1,
        r@[0].0@ == PROGRAM_NAME@,
        r@[0].1@ == spec_program_text(),
{
    vec![(PROGRAM_NAME, program_text())]
}

} // verus!
