//! The catalog of datapath programs, and the commands that install and
//! re-parameterise them.
//!
//! The datapath knows three programs by name. A program's text declares the
//! fields that it reports and the constants that the controller may set; the
//! controller never edits a text, it only names a program and supplies values
//! for its constants.

use vstd::prelude::*;
use crate::config::BbrConfig;
use crate::report::ReportField;

verus! {

/// Bootstraps a flow: it accumulates losses, the smallest round-trip sample and
/// the largest delivery rate, and reports once a full minimum round-trip time
/// has gone by since the last report.
pub const INIT_PROGRAM: &'static str = "
                (def
                    (Report 
                        (volatile loss 0)
                        (minrtt +infinity)
                        (volatile rate 0) 
                        (pulseState 0)
                    )
                )
                (when true
                    (:= Report.loss (+ Report.loss Ack.lost_pkts_sample))
                    (:= Report.minrtt (min Report.minrtt Flow.rtt_sample_us))
                    (:= Report.rate (max Report.rate (min Flow.rate_outgoing Flow.rate_incoming)))
                    (:= Report.pulseState 0)
                    (fallthrough)
                )
                (when (> Micros Report.minrtt)
                    (report)
                )
            ";

/// Re-measures the propagation delay: once at most four packets are in flight
/// it waits for one more round trip, and for 200 ms, and then reports the
/// smallest round-trip sample it has seen.
pub const PROBE_RTT_PROGRAM: &'static str = "
		(def 
		    (Report (volatile minrtt +infinity))
		    (volatile target_inflight_reached 0)
		)
		(when true
		    (:= Report.minrtt (min Report.minrtt Flow.rtt_sample_us))
		    (fallthrough)
		)
		(when (&& (== target_inflight_reached 0)
			  (|| (< Flow.packets_in_flight 4) (== Flow.packets_in_flight 4)))
		    (:= target_inflight_reached 1)
		    (:= Micros 0)
		)
		(when (&& (== target_inflight_reached 1) 
		          (&& (> Micros Flow.rtt_sample_us) (> Micros 200000))
                      )
                    (:= Micros 0)
		    (report)
		)
            ";

/// Runs the pacing-gain cycle: three fourths of the bottleneck rate after one
/// round trip, the rate itself after two, and five fourths of it, under the
/// window cap, after eight; it reports at each change of phase.
pub const PROBE_BW_PROGRAM: &'static str = "
                (def
                    (Report 
                        (volatile loss 0)
                        (volatile minrtt +infinity)
                        (volatile rate 0) 
                        (pulseState 0)
                    )
                    (pulseState 0)
                    (cwndCap 0)
                    (bottleRate 0)
                    (threeFourthsRate 0)
                    (fiveFourthsRate 0)
                )
                (when true
                    (:= Report.loss (+ Report.loss Ack.lost_pkts_sample))
                    (:= Report.minrtt (min Report.minrtt Flow.rtt_sample_us))
                    (:= Report.pulseState pulseState)
                    (:= Report.rate (max Report.rate (min Flow.rate_outgoing Flow.rate_incoming)))
                    (fallthrough)
                )
                (when (&& (> Micros Report.minrtt) (== pulseState 0))
                    (:= Rate threeFourthsRate)
                    (:= pulseState 1)
                    (report)
                )
                (when (&& (> Micros (* Report.minrtt 2)) (== pulseState 1))
                    (:= Rate bottleRate)
                    (:= pulseState 2)
                    (report)
                )
                (when (&& (> Micros (* Report.minrtt 8)) (== pulseState 2))
                    (:= pulseState 0)
                    (:= Cwnd cwndCap)
                    (:= Rate fiveFourthsRate)
                    (:= Micros 0)
                    (report)
                )
	    ";

/// A program of the catalog.
#[derive(Clone, Copy, Debug, PartialEq, Eq, Structural)]
pub enum Program {
    Init,
    ProbeBw,
    ProbeRtt,
}

impl Program {
    /// The name under which the datapath knows the program.
    pub open spec fn spec_name(self) -> Seq<char> {
        match self {
            Program::Init => "init_program"@,
            Program::ProbeBw => "probe_bw"@,
            Program::ProbeRtt => "probe_rtt"@,
        }
    }

    /// The program's text.
    pub open spec fn spec_source(self) -> Seq<char> {
        match self {
            Program::Init => INIT_PROGRAM@,
            Program::ProbeBw => PROBE_BW_PROGRAM@,
            Program::ProbeRtt => PROBE_RTT_PROGRAM@,
        }
    }

    /// The name under which the datapath knows the program.
    pub fn name(self) -> (r: &'static str)
        ensures
            r@ == self.spec_name(),
    {
        match self {
            Program::Init => "init_program",
            Program::ProbeBw => "probe_bw",
            Program::ProbeRtt => "probe_rtt",
        }
    }

    /// The program's text.
    pub fn source(self) -> (r: &'static str)
        ensures
            r@ == self.spec_source(),
    {
        match self {
            Program::Init => INIT_PROGRAM,
            Program::ProbeBw => PROBE_BW_PROGRAM,
            Program::ProbeRtt => PROBE_RTT_PROGRAM,
        }
    }
}

/// A constant that the controller sets in the datapath.
#[derive(Clone, Copy, Debug, PartialEq, Eq, Structural)]
pub enum Constant {
    /// The congestion window, in bytes.
    Cwnd,
    /// The pacing rate, in bytes per second.
    Rate,
    /// The window that the probing phase of the gain cycle installs.
    CwndCap,
    /// The pacing rate of the cruise phase.
    BottleRate,
    /// The pacing rate of the drain phase.
    ThreeFourthsRate,
    /// The pacing rate of the probing phase.
    FiveFourthsRate,
}

impl Constant {
    /// The name by which the program texts and the datapath know the constant.
    pub open spec fn spec_name(self) -> Seq<char> {
        match self {
            Constant::Cwnd => "Cwnd"@,
            Constant::Rate => "Rate"@,
            Constant::CwndCap => "cwndCap"@,
            Constant::BottleRate => "bottleRate"@,
            Constant::ThreeFourthsRate => "threeFourthsRate"@,
            Constant::FiveFourthsRate => "fiveFourthsRate"@,
        }
    }

    /// The name by which the program texts and the datapath know the constant.
    pub fn name(self) -> (r: &'static str)
        ensures
            r@ == self.spec_name(),
    {
        match self {
            Constant::Cwnd => "Cwnd",
            Constant::Rate => "Rate",
            Constant::CwndCap => "cwndCap",
            Constant::BottleRate => "bottleRate",
            Constant::ThreeFourthsRate => "threeFourthsRate",
            Constant::FiveFourthsRate => "fiveFourthsRate",
        }
    }
}

impl Program {
    /// Whether the program takes a value for `constant`. The window and the
    /// pacing rate belong to the datapath itself, so every program takes them;
    /// the four constants of the gain cycle are declared by the
    /// bandwidth-probing program alone.
    pub open spec fn spec_accepts(self, constant: Constant) -> bool {
        match constant {
            Constant::Cwnd | Constant::Rate => true,
            _ => self == Program::ProbeBw,
        }
    }

    /// Whether the program takes a value for `constant`.
    pub fn accepts(self, constant: Constant) -> (r: bool)
        ensures
            r == self.spec_accepts(constant),
    {
        match constant {
            Constant::Cwnd | Constant::Rate => true,
            _ => match self {
                Program::ProbeBw => true,
                _ => false,
            },
        }
    }
}

impl Program {
    /// Whether the program's reports carry `field`. The bootstrap program and
    /// the bandwidth-probing program report all four fields; the round-trip
    /// program reports the round-trip time alone.
    pub open spec fn spec_reports(self, field: ReportField) -> bool {
        match self {
            Program::ProbeRtt => field == ReportField::MinRtt,
            _ => true,
        }
    }

    /// Whether the program's reports carry `field`.
    pub fn reports(self, field: ReportField) -> (r: bool)
        ensures
            r == self.spec_reports(field),
    {
        match self {
            Program::ProbeRtt => match field {
                ReportField::MinRtt => true,
                _ => false,
            },
            _ => true,
        }
    }
}

/// A value for one constant.
#[derive(Clone, Copy, Debug, PartialEq, Eq, Structural)]
pub struct Setting {
    pub constant: Constant,
    pub value: u32,
}

/// One instance of a program, as the datapath runs it.
#[derive(Clone, Copy, Debug, PartialEq, Eq, Structural)]
pub struct Scope {
    /// The program that runs.
    pub program: Program,
    /// The identifier that the datapath gave the instance. Every installation
    /// gets a new one, and every report carries the one of the instance that
    /// produced it.
    pub program_uid: u32,
}

/// What the controller asks of the datapath. The caller carries commands out in
/// the order in which it receives them.
#[derive(Debug, PartialEq, Eq)]
pub enum Command {
    /// Replace the running program by `program`, started with `constants`. The
    /// datapath answers with the identifier of the new program instance, which
    /// the caller hands to [`crate::Bbr::record_scope`]; where the datapath
    /// refuses, the caller says so by [`crate::Bbr::record_refusal`].
    Install { program: Program, constants: Vec<Setting> },
    /// Set `constants` in the program that is running when the command is
    /// carried out, which keeps running under the same scope.
    Update { constants: Vec<Setting> },
}

/// A [`Command`] as contracts speak of it.
pub enum Action {
    Install { program: Program, constants: Seq<Setting> },
    Update { constants: Seq<Setting> },
}

impl View for Command {
    type V = Action;

    open spec fn view(&self) -> Action {
        match *self {
            Command::Install { program, constants } => Action::Install {
                program,
                constants: constants@,
            },
            Command::Update { constants } => Action::Update { constants: constants@ },
        }
    }
}

/// The actions that a list of commands stands for, in order.
pub open spec fn actions(commands: Seq<Command>) -> Seq<Action> {
    commands.map_values(|c: Command| c@)
}

impl Action {
    /// Whether an installation supplies only constants that its program takes.
    /// An update names no program, so nothing is asked of it here.
    pub open spec fn well_formed(self) -> bool {
        match self {
            Action::Install { program, constants } => forall|i: int|
                0 <= i < constants.len() ==> program.spec_accepts(#[trigger] constants[i].constant),
            Action::Update { .. } => true,
        }
    }
}

/// The catalog, in the order in which it is handed to the runtime.
pub open spec fn catalog() -> Seq<Program> {
    seq![Program::Init, Program::ProbeRtt, Program::ProbeBw]
}

impl BbrConfig {
    /// The name of the algorithm.
    pub fn name() -> (r: &'static str)
        ensures
            r@ == "bbr"@,
    {
        "bbr"
    }

    /// Every program that a flow may ask the datapath to run, each as its name
    /// and its text.
    pub fn datapath_programs(&self) -> (r: Vec<(&'static str, String)>)
        ensures
            r@.len() == catalog().len(),
            forall|i: int|
                0 <= i < r@.len() ==> (#[trigger] r@[i]).0@ == catalog()[i].spec_name()
                    && r@[i].1@ == catalog()[i].spec_source(),
    {
        let mut r: Vec<(&'static str, String)> = Vec::new();
        r.push((Program::Init.name(), Program::Init.source().to_owned()));
        r.push((Program::ProbeRtt.name(), Program::ProbeRtt.source().to_owned()));
        r.push((Program::ProbeBw.name(), Program::ProbeBw.source().to_owned()));
        r
    }
}

/// No two programs share a name: a name stands for exactly one text.
pub proof fn lemma_program_names_are_distinct(a: Program, b: Program)
    requires
        a.spec_name() == b.spec_name(),
    ensures
        a == b,
{
    reveal_strlit("init_program");
    reveal_strlit("probe_bw");
    reveal_strlit("probe_rtt");
    assert("init_program"@.len() == 12);
    assert("probe_bw"@.len() == 8);
    assert("probe_rtt"@.len() == 9);
}

/// No two constants share a name.
pub proof fn lemma_constant_names_are_distinct(a: Constant, b: Constant)
    requires
        a.spec_name() == b.spec_name(),
    ensures
        a == b,
{
    reveal_strlit("Cwnd");
    reveal_strlit("Rate");
    reveal_strlit("cwndCap");
    reveal_strlit("bottleRate");
    reveal_strlit("threeFourthsRate");
    reveal_strlit("fiveFourthsRate");
    assert("Cwnd"@.len() == 4 && "Cwnd"@[0] == 'C');
    assert("Rate"@.len() == 4 && "Rate"@[0] == 'R');
    assert("cwndCap"@.len() == 7);
    assert("bottleRate"@.len() == 10);
    assert("threeFourthsRate"@.len() == 16);
    assert("fiveFourthsRate"@.len() == 15);
}

} // verus!
