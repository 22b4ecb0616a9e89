//! Control logic of an AIMD congestion controller driven by datapath reports.

pub mod aggregate;
pub mod measure;
pub mod program;
pub mod puffer;
pub mod window;

pub use aggregate::{AckEvent, Aggregator, ReportValues};
pub use measure::{get_fields, measurements_from_values, read_field, CongMeasurements, MissingFieldError};
pub use puffer::{name, Puffer, PufferConfig};
pub use program::{init_programs, program_text, schema, ReportField, PROGRAM_NAME};
pub use window::{WindowController, WindowModel, CWND_SCALE, DEFAULT_INIT_CWND};
