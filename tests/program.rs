use ccp_interface::{init_programs, name, program_text, schema, PufferConfig, ReportField, PROGRAM_NAME};

const EXPECTED: &str = "(def (Report
    (volatile rtt 0)
    (volatile acked 0)
    (volatile sacked 0)
    (volatile inflight 0)
    (volatile loss 0)
    (volatile timeout false)
))
(when true
    (:= Report.rtt Flow.rtt_sample_us)
    (:= Report.acked (+ Report.acked Ack.bytes_acked))
    (:= Report.sacked (+ Report.sacked Ack.packets_misordered))
    (:= Report.inflight Flow.packets_in_flight)
    (:= Report.loss Ack.lost_pkts_sample)
    (:= Report.timeout Flow.was_timeout)
    (fallthrough)
)
(when (|| Report.timeout (> Report.loss 0))
    (report)
    (:= Micros 0)
)
(when (> Micros Flow.rtt_sample_us)
    (report)
    (:= Micros 0)
)
";

#[test]
fn program_text_is_built_from_schema() {
    assert_eq!(program_text(), EXPECTED);
}

#[test]
fn init_programs_installs_one_program() {
    let progs = init_programs();
    assert_eq!(progs.len(), 1);
    assert_eq!(progs[0].0, "DatapathIntervalRTTProg");
    assert_eq!(progs[0].0, PROGRAM_NAME);
    assert_eq!(progs[0].1, EXPECTED);
}

#[test]
fn extracted_fields_match_declared_fields() {
    let text = program_text();
    let fields = schema();
    assert_eq!(fields.len(), 6);
    let paths: Vec<String> = fields.iter().map(|f| f.path()).collect();
    assert_eq!(
        paths,
        vec!["Report.rtt", "Report.acked", "Report.sacked", "Report.inflight", "Report.loss", "Report.timeout"]
    );
    for f in &fields {
        assert!(text.contains(&format!("(volatile {} ", f.name())));
    }
    assert_eq!(text.matches("(volatile ").count(), fields.len());
    assert_eq!(ReportField::Timeout.name(), "timeout");
}

#[test]
fn algorithm_name() {
    assert_eq!(name(), "CCP Interface for Puffer");
}

#[test]
fn config_default() {
    assert_eq!(PufferConfig::default(), PufferConfig {});
}
