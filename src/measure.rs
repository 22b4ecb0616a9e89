use vstd::prelude::*;
use crate::program::{report_schema, schema, ReportField};

verus! {

/// One decoded report: the signals that the datapath aggregated since the
/// previous report.
#[derive(Clone, Copy, Debug, PartialEq, Eq, Structural)]
pub struct CongMeasurements {
    /// Most recent round-trip time sample, in microseconds.
    pub rtt: u32,
    /// Bytes acknowledged since the previous report.
    pub acked: u32,
    /// Packets seen out of order since the previous report.
    pub sacked: u32,
    /// Packets in flight at the last acknowledgment.
    pub inflight: u32,
    /// Packets detected lost at the last acknowledgment.
    pub loss: u32,
    /// Whether the last acknowledgment followed a retransmission timeout.
    pub was_timeout: bool,
}


/// A field of the report that the connection's scope does not bind.
#[derive(Clone, Copy, Debug, PartialEq, Eq, Structural)]
pub struct MissingFieldError {
    pub field: ReportField,
}

#[verifier::external_type_specification]
#[verifier::external_body]
pub struct ExReport(portus::Report);

#[verifier::external_type_specification]
#[verifier::external_body]
pub struct ExScope(portus::lang::Scope);

#[verifier::external_type_specification]
#[verifier::external_body]
pub struct ExError(portus::Error);

/// The value that a report holds for a fully qualified field name under a
/// scope, if the scope binds that name to one of the report's fields.
pub uninterp spec fn report_field(m: portus::Report, sc: portus::lang::Scope, path: Seq<char>) -> Option<u64>;

/// Relies on portus::Report::get_field, which looks a field up by name in the
/// scope and returns the report's value for it, or an error where the scope
/// belongs to another program, does not bind the name, or binds it to no
/// report field. The outcome depends on the report, the scope and the name
/// alone, and the call does not panic.
pub assume_specification[ portus::Report::get_field ](
    r: &portus::Report,
    field: &str,
    sc: &portus::lang::Scope,
) -> (res: core::result::Result<u64, portus::Error>)
    ensures
        match res {
            Ok(v) => report_field(*r, *sc, field@) == Some(v),
            Err(_) => report_field(*r, *sc, field@) is None,
        },
;

/// The values of the schema fields in the report, in schema order.
pub open spec fn schema_values(m: portus::Report, sc: portus::lang::Scope) -> Seq<Option<u64>> {
    Seq::new(report_schema().len(), (|i: int| report_field(m, sc, report_schema()[i].spec_path())))
}

/// The snapshot made from the values read for each schema field, in schema
/// order; the first field without a value is reported as missing.
pub open spec fn decode(v: Seq<Option<u64>>) -> Result<CongMeasurements, MissingFieldError>
    recommends
        v.len() == report_schema().len(),
{
    if v[0] is None {
        Err(MissingFieldError { field: ReportField::Rtt })
    } else if v[1] is None {
        Err(MissingFieldError { field: ReportField::Acked })
    } else if v[2] is None {
        Err(MissingFieldError { field: ReportField::Sacked })
    } else if v[3] is None {
        Err(MissingFieldError { field: ReportField::Inflight })
    } else if v[4] is None {
        Err(MissingFieldError { field: ReportField::Loss })
    } else if v[5] is None {
        Err(MissingFieldError { field: ReportField::Timeout })
    } else {
        Ok(CongMeasurements {
            rtt: v[0]->Some_0 as u32,
            acked: v[1]->Some_0 as u32,
            sacked: v[2]->Some_0 as u32,
            inflight: v[3]->Some_0 as u32,
            loss: v[4]->Some_0 as u32,
            was_timeout: v[5]->Some_0 == 1,
        })
    }
}

/// Turns the raw values of the schema fields, in schema order, into a
/// snapshot: numbers are cut to `u32`, the timeout flag is set when its
/// value is exactly 1.
pub fn measurements_from_values(values: &Vec<Option<u64>>) -> (r: Result<CongMeasurements, MissingFieldError>)
    requires
        values@.len() == report_schema().len(),
    ensures
        r == decode(values@),
{
    let rtt = match values[0] {
        Some(x) => x,
        None => return Err(MissingFieldError { field: ReportField::Rtt }),
    };
    let acked = match values[1] {
        Some(x) => x,
        None => return Err(MissingFieldError { field: ReportField::Acked }),
    };
    let sacked = match values[2] {
        Some(x) => x,
        None => return Err(MissingFieldError { field: ReportField::Sacked }),
    };
    let inflight = match values[3] {
        Some(x) => x,
        None => return Err(MissingFieldError { field: ReportField::Inflight }),
    };
    let loss = match values[4] {
        Some(x) => x,
        None => return Err(MissingFieldError { field: ReportField::Loss }),
    };
    let timeout = match values[5] {
        Some(x) => x,
        None => return Err(MissingFieldError { field: ReportField::Timeout }),
    };
    Ok(CongMeasurements {
        rtt: rtt as u32,
        acked: acked as u32,
        sacked: sacked as u32,
        inflight: inflight as u32,
        loss: loss as u32,
        was_timeout: timeout == 1,
    })
}

/// The value of one field of the report, if the scope binds it.
pub fn read_field(m: &portus::Report, f: ReportField, sc: &portus::lang::Scope) -> (r: Option<u64>)
    ensures
        r == report_field(*m, *sc, f.spec_path()),
{
    let path = f.path();
    match m.get_field(path.as_str(), sc) {
        Ok(v) => Some(v),
        Err(_) => None,
    }
}

/// Reads every schema field of the report through the scope, by its fully
/// qualified name, and builds the snapshot from those values.
pub fn get_fields(m: &portus::Report, sc: &portus::lang::Scope) -> (r: Result<CongMeasurements, MissingFieldError>)
    ensures
        r == decode(schema_values(*m, *sc)),
{
    let fields = schema();
    let mut values: Vec<Option<u64>> = Vec::new();
    let mut i: usize = 0;
    while i < fields.len()
        invariant
            fields@ == report_schema(),
            i <= fields.len(),
            values@.len() == i,
            forall|k: int| 0 <= k < i ==> values@[k] == #[trigger] schema_values(*m, *sc)[k],
        decreases fields.len() - i,
    {
        values.push(read_field(m, fields[i], sc));
        i = i + 1;
    }
    let r = measurements_from_values(&values);
    assert(values@ =~= schema_values(*m, *sc));
    r
}

} // verus!
