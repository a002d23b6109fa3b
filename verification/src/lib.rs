//! A BBR congestion controller for a congestion-control plane.
//!
//! The controller runs beside the datapath. The datapath executes a small
//! measurement program against each flow and reports aggregated samples; the
//! controller folds every report into an estimate of the bottleneck rate and of
//! the minimum round-trip time, and answers with the commands that keep the
//! datapath's program and its constants current.
//!
//! Nothing here performs I/O. A decision is a function from the flow's state,
//! a report and the time of its arrival to the next state and a list of
//! [`Command`]s, which the caller carries out in order.

pub mod config;
pub mod flow;
pub mod laws;
pub mod model;
pub mod pacing;
pub mod programs;
pub mod report;

pub use config::{make_args, BbrConfig, ConfigError, ParseError, PROBE_RTT_INTERVAL_SECONDS};
pub use flow::Bbr;
pub use model::{BbrMode, FlowState};
pub use pacing::PacingConstants;
pub use programs::{Action, Command, Constant, Program, Scope, Setting};
pub use report::{Report, ReportError, ReportField};
