//! The mathematical model of one flow's controller.
//!
//! [`FlowState`] is what a flow's controller knows, and [`FlowState::step`] is
//! the whole of its behaviour: the state and the commands that follow from one
//! report. The executable controller is proved to compute exactly this.

use vstd::prelude::*;
use crate::pacing::spec_pacing_constants;
use crate::programs::{Action, Constant, Program, Scope, Setting};
use crate::report::{Report, ReportError};

verus! {

/// What the controller is doing.
#[derive(Clone, Copy, Debug, PartialEq, Eq, Structural)]
pub enum BbrMode {
    /// Cycling the pacing gain around the bottleneck rate.
    ProbeBw,
    /// Holding the window down to measure the propagation delay.
    ProbeRtt,
}

/// The bottleneck rate assumed before any was measured, in bytes per second.
/// It is positive, so that no constant derived from it starts at zero.
pub const INITIAL_BOTTLE_RATE: u64 = 125_000;

/// The minimum round-trip time that stands before any was measured, and while
/// the round-trip time is being probed, in microseconds: larger than any
/// sample worth keeping.
pub const MIN_RTT_SENTINEL_US: u32 = 0x3fff_ffff;

/// The window, in segments, under which the round-trip time is probed.
pub const PROBE_RTT_CWND_SEGMENTS: u32 = 4;

/// The largest segment size for which that window fits a 32-bit register.
pub const MAX_MSS: u32 = 0x3fff_ffff;

/// The largest phase of the pacing-gain cycle.
pub const MAX_PULSE_STATE: u32 = 2;

/// The state of one flow's controller.
pub struct FlowState {
    /// What the controller is doing.
    pub mode: BbrMode,
    /// The program instance whose reports are current, once an installation
    /// has been confirmed.
    pub scope: Option<Scope>,
    /// The configured interval between two probes of the round-trip time, in
    /// microseconds.
    pub probe_rtt_interval_us: nat,
    /// The estimate of the bottleneck rate, in bytes per second.
    pub bottleneck_rate_estimate: nat,
    /// The time by which the rate estimate was last renewed, plus one interval.
    pub bottleneck_rate_deadline: nat,
    /// The estimate of the minimum round-trip time, in microseconds.
    pub min_rtt_estimate_us: nat,
    /// The time after which the round-trip time is probed anew.
    pub min_rtt_deadline: nat,
    /// The phase of the pacing-gain cycle that the datapath last reported.
    pub pulse_state: nat,
    /// The flow's maximum segment size, in bytes.
    pub mss: nat,
    /// The flow's initial congestion window, in bytes.
    pub initial_cwnd: nat,
    /// Whether the bandwidth-probing program is yet to be installed for the
    /// first time.
    pub is_first_probe_bw_entry: bool,
}

impl FlowState {
    /// The invariant of every flow: a positive segment size whose fourfold fits
    /// a register, a positive interval, a phase of the gain cycle, and the
    /// sentinel as the estimate for as long as the round-trip time is probed.
    pub open spec fn wf(self) -> bool {
        &&& 0 < self.mss <= MAX_MSS
        &&& 0 < self.probe_rtt_interval_us
        &&& self.pulse_state <= MAX_PULSE_STATE
        &&& self.mode == BbrMode::ProbeRtt ==> self.min_rtt_estimate_us == MIN_RTT_SENTINEL_US
    }

    /// The state of a flow created at time `now` with an interval of
    /// `interval_us` microseconds: the bootstrap rate, the sentinel as the
    /// minimum round-trip time, both deadlines one interval ahead, and no
    /// program confirmed yet.
    pub open spec fn created(interval_us: nat, mss: nat, initial_cwnd: nat, now: nat) -> FlowState {
        FlowState {
            mode: BbrMode::ProbeBw,
            scope: None,
            probe_rtt_interval_us: interval_us,
            bottleneck_rate_estimate: INITIAL_BOTTLE_RATE as nat,
            bottleneck_rate_deadline: now + interval_us,
            min_rtt_estimate_us: MIN_RTT_SENTINEL_US as nat,
            min_rtt_deadline: now + interval_us,
            pulse_state: 0,
            mss,
            initial_cwnd,
            is_first_probe_bw_entry: true,
        }
    }

    /// The command that starts a flow: install the bootstrap program under the
    /// flow's initial window.
    pub open spec fn install_init(self) -> Action {
        Action::Install {
            program: Program::Init,
            constants: seq![Setting { constant: Constant::Cwnd, value: self.initial_cwnd as u32 }],
        }
    }

    /// The state once the datapath has confirmed an installation as `scope`.
    pub open spec fn with_scope(self, scope: Scope) -> FlowState {
        FlowState { scope: Some(scope), ..self }
    }

    /// The program of the current scope: the one that the datapath runs, as far
    /// as the controller was told.
    pub open spec fn running(self) -> Option<Program> {
        match self.scope {
            Some(scope) => Some(scope.program),
            None => None,
        }
    }

    /// A controller is settled when its mode is the one that the running
    /// program serves: the bootstrap program serves a flow that has not
    /// started the gain cycle, the bandwidth-probing program the gain cycle,
    /// and the round-trip program the probe of the round-trip time. A new flow
    /// is settled.
    pub open spec fn settled(self) -> bool {
        match self.running() {
            None | Some(Program::Init) => self.mode == BbrMode::ProbeBw
                && self.is_first_probe_bw_entry,
            Some(Program::ProbeBw) => self.mode == BbrMode::ProbeBw,
            Some(Program::ProbeRtt) => self.mode == BbrMode::ProbeRtt,
        }
    }

    /// The state once the datapath has refused an installation: the program
    /// that ran before goes on running, and the controller goes back to the
    /// mode that this program serves. Where that is the probe of the
    /// round-trip time, the estimate is the sentinel again, and the probe's
    /// next report brings the measurement anew. The estimates and deadlines
    /// stay otherwise.
    pub open spec fn with_refusal(self) -> FlowState {
        match self.running() {
            None | Some(Program::Init) => FlowState {
                mode: BbrMode::ProbeBw,
                is_first_probe_bw_entry: true,
                ..self
            },
            Some(Program::ProbeBw) => FlowState { mode: BbrMode::ProbeBw, ..self },
            Some(Program::ProbeRtt) => FlowState {
                mode: BbrMode::ProbeRtt,
                min_rtt_estimate_us: MIN_RTT_SENTINEL_US as nat,
                ..self
            },
        }
    }

    /// A report is stale when it does not carry the identifier of the current
    /// program instance, or when there is none.
    pub open spec fn is_stale(self, report: Report) -> bool {
        match self.scope {
            Some(scope) => scope.program_uid != report.program_uid,
            None => true,
        }
    }

    /// The update that renews the window cap alone.
    pub open spec fn cwnd_cap_update(self) -> Action {
        let c = spec_pacing_constants(self.bottleneck_rate_estimate, self.min_rtt_estimate_us);
        Action::Update {
            constants: seq![Setting { constant: Constant::CwndCap, value: c.cwnd_cap }],
        }
    }

    /// The update that renews the four constants of the gain cycle.
    pub open spec fn rate_update(self) -> Action {
        let c = spec_pacing_constants(self.bottleneck_rate_estimate, self.min_rtt_estimate_us);
        Action::Update {
            constants: seq![
                Setting { constant: Constant::BottleRate, value: c.bottle_rate },
                Setting { constant: Constant::ThreeFourthsRate, value: c.three_fourths_rate },
                Setting { constant: Constant::FiveFourthsRate, value: c.five_fourths_rate },
                Setting { constant: Constant::CwndCap, value: c.cwnd_cap },
            ],
        }
    }

    /// The commands that start the gain cycle: set window and rate for its
    /// probing phase in the program that is running, then install the
    /// bandwidth-probing program with its four constants.
    pub open spec fn probe_bw_commands(self) -> Seq<Action> {
        let c = spec_pacing_constants(self.bottleneck_rate_estimate, self.min_rtt_estimate_us);
        seq![
            Action::Update {
                constants: seq![
                    Setting { constant: Constant::Cwnd, value: c.cwnd_cap },
                    Setting { constant: Constant::Rate, value: c.five_fourths_rate },
                ],
            },
            Action::Install {
                program: Program::ProbeBw,
                constants: seq![
                    Setting { constant: Constant::CwndCap, value: c.cwnd_cap },
                    Setting { constant: Constant::BottleRate, value: c.bottle_rate },
                    Setting { constant: Constant::ThreeFourthsRate, value: c.three_fourths_rate },
                    Setting { constant: Constant::FiveFourthsRate, value: c.five_fourths_rate },
                ],
            },
        ]
    }

    /// The commands that start a probe of the round-trip time: install the
    /// probing program, then pin the window to four segments.
    pub open spec fn probe_rtt_commands(self) -> Seq<Action> {
        seq![
            Action::Install { program: Program::ProbeRtt, constants: Seq::<Setting>::empty() },
            Action::Update {
                constants: seq![
                    Setting {
                        constant: Constant::Cwnd,
                        value: (PROBE_RTT_CWND_SEGMENTS * self.mss) as u32,
                    },
                ],
            },
        ]
    }

    /// The state that remembers `phase` as the last phase reported, where it
    /// is one of the gain cycle's three.
    pub open spec fn observe_pulse(self, phase: u32) -> FlowState {
        if phase <= MAX_PULSE_STATE {
            FlowState { pulse_state: phase as nat, ..self }
        } else {
            self
        }
    }

    /// Whether a sample lowers the estimate of the minimum round-trip time.
    pub open spec fn lowers_min_rtt(self, min_rtt_us: u32) -> bool {
        min_rtt_us < self.min_rtt_estimate_us
    }

    /// The state after a round-trip sample taken at `now`: a smaller one
    /// becomes the estimate and moves the deadline one interval ahead.
    pub open spec fn with_min_rtt_sample(self, min_rtt_us: u32, now: nat) -> FlowState {
        if self.lowers_min_rtt(min_rtt_us) {
            FlowState {
                min_rtt_estimate_us: min_rtt_us as nat,
                min_rtt_deadline: now + self.probe_rtt_interval_us,
                ..self
            }
        } else {
            self
        }
    }

    /// Whether a sample raises the estimate of the bottleneck rate.
    pub open spec fn raises_rate(self, rate: u64) -> bool {
        self.bottleneck_rate_estimate < rate
    }

    /// The state after a rate sample taken at `now`: a larger one becomes the
    /// estimate and moves its deadline one interval ahead.
    pub open spec fn with_rate_sample(self, rate: u64, now: nat) -> FlowState {
        if self.raises_rate(rate) {
            FlowState {
                bottleneck_rate_estimate: rate as nat,
                bottleneck_rate_deadline: now + self.probe_rtt_interval_us,
                ..self
            }
        } else {
            self
        }
    }

    /// What follows from a report that ends a probe of the round-trip time:
    /// its minimum becomes the estimate, the deadline moves one interval past
    /// `now`, and the gain cycle starts over.
    pub open spec fn on_probe_rtt_report(self, min_rtt_us: u32, now: nat) -> (
        FlowState,
        Seq<Action>,
    ) {
        let measured = FlowState {
            min_rtt_estimate_us: min_rtt_us as nat,
            min_rtt_deadline: now + self.probe_rtt_interval_us,
            ..self
        };
        (FlowState { mode: BbrMode::ProbeBw, ..measured }, measured.probe_bw_commands())
    }

    /// What follows from a report of the gain cycle, or of the bootstrap
    /// program, with the given round-trip time, rate and phase.
    ///
    /// A smaller round-trip time is taken first, and renews the window cap once
    /// the gain cycle runs. If the deadline of the round-trip estimate has
    /// passed, the controller turns to probing the round-trip time and looks no
    /// further. Otherwise a larger rate is taken, and renews the four constants
    /// once the gain cycle runs; and a flow that has not started the gain cycle
    /// yet starts it.
    pub open spec fn on_probe_bw_report(self, min_rtt_us: u32, rate: u64, phase: u32, now: nat) -> (
        FlowState,
        Seq<Action>,
    ) {
        let sampled = self.observe_pulse(phase).with_min_rtt_sample(min_rtt_us, now);
        let cap = if self.lowers_min_rtt(min_rtt_us) && !self.is_first_probe_bw_entry {
            seq![sampled.cwnd_cap_update()]
        } else {
            Seq::<Action>::empty()
        };
        if now > sampled.min_rtt_deadline {
            (
                FlowState {
                    mode: BbrMode::ProbeRtt,
                    min_rtt_estimate_us: MIN_RTT_SENTINEL_US as nat,
                    ..sampled
                },
                cap + sampled.probe_rtt_commands(),
            )
        } else {
            let rated = sampled.with_rate_sample(rate, now);
            let pacing = if sampled.raises_rate(rate) && !self.is_first_probe_bw_entry {
                seq![rated.rate_update()]
            } else {
                Seq::<Action>::empty()
            };
            if self.is_first_probe_bw_entry {
                (
                    FlowState { is_first_probe_bw_entry: false, ..rated },
                    cap + pacing + rated.probe_bw_commands(),
                )
            } else {
                (rated, cap + pacing)
            }
        }
    }

    /// What follows from a report that arrives at `now`: the next state and
    /// the commands to carry out, or the reason why the report cannot be
    /// decoded. A stale report changes nothing and asks for nothing.
    pub open spec fn step(self, report: Report, now: nat) -> Result<
        (FlowState, Seq<Action>),
        ReportError,
    > {
        if self.is_stale(report) {
            Ok((self, Seq::<Action>::empty()))
        } else {
            match self.mode {
                BbrMode::ProbeRtt => match report.spec_probe_minrtt() {
                    Ok(min_rtt_us) => Ok(self.on_probe_rtt_report(min_rtt_us, now)),
                    Err(e) => Err(e),
                },
                BbrMode::ProbeBw => match report.spec_probe_bw_fields() {
                    Ok(fields) => Ok(self.on_probe_bw_report(fields.1, fields.2, fields.3, now)),
                    Err(e) => Err(e),
                },
            }
        }
    }
}

} // verus!
