//! The controller of one flow.
//!
//! A [`Bbr`] is created when a flow starts and fed every report that the
//! datapath sends for it. It never talks to the datapath itself: creation and
//! each report yield the commands that the caller is to carry out, and the
//! caller tells the controller how each installation went: under which scope
//! it took effect, or that the datapath refused it. After a refusal the
//! controller goes on with the program that still runs, so that no report of
//! that program finds it in a mode that the program does not serve.
//!
//! Time is a count of microseconds on a monotonic clock. Deadlines are kept
//! wide enough to lie an interval past any moment of the clock.

use vstd::prelude::*;
use crate::config::BbrConfig;
use crate::model::{
    BbrMode, FlowState, INITIAL_BOTTLE_RATE, MAX_MSS, MAX_PULSE_STATE, MIN_RTT_SENTINEL_US,
    PROBE_RTT_CWND_SEGMENTS,
};
use crate::pacing::{pacing_constants, MICROS_PER_SECOND};
use crate::programs::{actions, Command, Constant, Program, Scope, Setting};
use crate::report::{Report, ReportError};

verus! {

/// The controller of one flow.
#[derive(Clone, Copy, Debug, PartialEq, Eq)]
pub struct Bbr {
    scope: Option<Scope>,
    probe_rtt_interval_us: u128,
    bottleneck_rate_estimate: u64,
    bottleneck_rate_deadline: u128,
    min_rtt_estimate_us: u32,
    min_rtt_deadline: u128,
    mode: BbrMode,
    pulse_state: u32,
    mss: u32,
    initial_cwnd: u32,
    is_first_probe_bw_entry: bool,
}

impl View for Bbr {
    type V = FlowState;

    closed spec fn view(&self) -> FlowState {
        FlowState {
            mode: self.mode,
            scope: self.scope,
            probe_rtt_interval_us: self.probe_rtt_interval_us as nat,
            bottleneck_rate_estimate: self.bottleneck_rate_estimate as nat,
            bottleneck_rate_deadline: self.bottleneck_rate_deadline as nat,
            min_rtt_estimate_us: self.min_rtt_estimate_us as nat,
            min_rtt_deadline: self.min_rtt_deadline as nat,
            pulse_state: self.pulse_state as nat,
            mss: self.mss as nat,
            initial_cwnd: self.initial_cwnd as nat,
            is_first_probe_bw_entry: self.is_first_probe_bw_entry,
        }
    }
}

impl BbrConfig {
    /// Starts the controller of a flow with segment size `mss` and initial
    /// window `initial_cwnd`, at time `now`. The command returned installs the
    /// bootstrap program; until the caller confirms it with
    /// [`Bbr::record_scope`], every report is stale.
    pub fn new_flow(&self, mss: u32, initial_cwnd: u32, now: u64) -> (r: (Bbr, Command))
        requires
            self.valid(),
            0 < mss <= MAX_MSS,
        ensures
            r.0@ == FlowState::created(
                self.interval_us(),
                mss as nat,
                initial_cwnd as nat,
                now as nat,
            ),
            r.0@.wf(),
            r.0@.settled(),
            r.1@ == r.0@.install_init(),
            r.1@.well_formed(),
    {
        let interval_us: u128 = (self.probe_rtt_interval as u128) * (MICROS_PER_SECOND as u128);
        let flow = Bbr {
            scope: None,
            probe_rtt_interval_us: interval_us,
            bottleneck_rate_estimate: INITIAL_BOTTLE_RATE,
            bottleneck_rate_deadline: now as u128 + interval_us,
            min_rtt_estimate_us: MIN_RTT_SENTINEL_US,
            min_rtt_deadline: now as u128 + interval_us,
            mode: BbrMode::ProbeBw,
            pulse_state: 0,
            mss,
            initial_cwnd,
            is_first_probe_bw_entry: true,
        };
        let mut constants: Vec<Setting> = Vec::new();
        constants.push(Setting { constant: Constant::Cwnd, value: initial_cwnd });
        let install = Command::Install { program: Program::Init, constants };
        (flow, install)
    }
}

impl Bbr {
    #[verifier::type_invariant]
    spec fn inv(&self) -> bool {
        &&& 0 < self.mss <= MAX_MSS
        &&& 0 < self.probe_rtt_interval_us <= u64::MAX * MICROS_PER_SECOND
        &&& self.pulse_state <= MAX_PULSE_STATE
        &&& self.mode == BbrMode::ProbeRtt ==> self.min_rtt_estimate_us == MIN_RTT_SENTINEL_US
    }

    /// Takes note that the datapath has carried out an installation, and runs
    /// the program as `scope`: from now on the reports of that instance are
    /// current.
    pub fn record_scope(&mut self, scope: Scope)
        ensures
            final(self)@ == old(self)@.with_scope(scope),
            final(self)@.wf(),
    {
        proof {
            use_type_invariant(&*self);
        }
        self.scope = Some(scope);
    }

    /// Takes note that the datapath has refused an installation, so that the
    /// program that ran before still runs. The controller goes back to the
    /// mode that this program serves, and is settled.
    pub fn record_refusal(&mut self)
        ensures
            final(self)@ == old(self)@.with_refusal(),
            final(self)@.wf(),
            final(self)@.settled(),
    {
        proof {
            use_type_invariant(&*self);
        }
        let running = match self.scope {
            Some(scope) => scope.program,
            None => Program::Init,
        };
        match running {
            Program::Init => {
                self.mode = BbrMode::ProbeBw;
                self.is_first_probe_bw_entry = true;
            },
            Program::ProbeBw => {
                self.mode = BbrMode::ProbeBw;
            },
            Program::ProbeRtt => {
                self.min_rtt_estimate_us = MIN_RTT_SENTINEL_US;
                self.mode = BbrMode::ProbeRtt;
            },
        }
    }

    fn cwnd_cap_update(&self) -> (c: Command)
        ensures
            c@ == self@.cwnd_cap_update(),
    {
        let k = pacing_constants(self.bottleneck_rate_estimate, self.min_rtt_estimate_us);
        let mut constants: Vec<Setting> = Vec::new();
        constants.push(Setting { constant: Constant::CwndCap, value: k.cwnd_cap });
        Command::Update { constants }
    }

    /// The update that brings the four constants of the gain cycle in line with
    /// the current estimates.
    pub fn replace_probe_bw_rate(&self) -> (c: Command)
        ensures
            c@ == self@.rate_update(),
    {
        let k = pacing_constants(self.bottleneck_rate_estimate, self.min_rtt_estimate_us);
        let mut constants: Vec<Setting> = Vec::new();
        constants.push(Setting { constant: Constant::BottleRate, value: k.bottle_rate });
        constants.push(Setting { constant: Constant::ThreeFourthsRate, value: k.three_fourths_rate });
        constants.push(Setting { constant: Constant::FiveFourthsRate, value: k.five_fourths_rate });
        constants.push(Setting { constant: Constant::CwndCap, value: k.cwnd_cap });
        let c = Command::Update { constants };
        assert(c@->Update_constants =~= self@.rate_update()->Update_constants);
        c
    }

    /// The commands that start the gain cycle from the current estimates.
    pub fn install_probe_bw(&self) -> (r: Vec<Command>)
        ensures
            actions(r@) == self@.probe_bw_commands(),
    {
        let k = pacing_constants(self.bottleneck_rate_estimate, self.min_rtt_estimate_us);
        let mut first: Vec<Setting> = Vec::new();
        first.push(Setting { constant: Constant::Cwnd, value: k.cwnd_cap });
        first.push(Setting { constant: Constant::Rate, value: k.five_fourths_rate });
        let mut constants: Vec<Setting> = Vec::new();
        constants.push(Setting { constant: Constant::CwndCap, value: k.cwnd_cap });
        constants.push(Setting { constant: Constant::BottleRate, value: k.bottle_rate });
        constants.push(Setting { constant: Constant::ThreeFourthsRate, value: k.three_fourths_rate });
        constants.push(Setting { constant: Constant::FiveFourthsRate, value: k.five_fourths_rate });
        let update = Command::Update { constants: first };
        let install = Command::Install { program: Program::ProbeBw, constants };
        let ghost want = self@.probe_bw_commands();
        assert(update@->Update_constants =~= want[0]->Update_constants);
        assert(install@->Install_constants =~= want[1]->Install_constants);
        let mut r: Vec<Command> = Vec::new();
        r.push(update);
        r.push(install);
        r
    }

    fn install_probe_rtt(&self) -> (r: Vec<Command>)
        ensures
            actions(r@) == self@.probe_rtt_commands(),
    {
        proof {
            use_type_invariant(self);
        }
        let mut window: Vec<Setting> = Vec::new();
        window.push(Setting { constant: Constant::Cwnd, value: PROBE_RTT_CWND_SEGMENTS * self.mss });
        let install = Command::Install { program: Program::ProbeRtt, constants: Vec::new() };
        let update = Command::Update { constants: window };
        let mut r: Vec<Command> = Vec::new();
        r.push(install);
        r.push(update);
        r
    }

    /// Takes the report `m`, which arrived at time `now`, and says what is to
    /// be done about it.
    ///
    /// A report of another program instance than the current one is dropped:
    /// nothing changes and nothing is asked for. A current report that lacks a
    /// field required in the controller's mode is an error, and leaves the
    /// state as it was. Otherwise the state and the commands are those of
    /// [`FlowState::step`].
    pub fn on_report(&mut self, _sock_id: u32, m: &Report, now: u64) -> (r: Result<
        Vec<Command>,
        ReportError,
    >)
        ensures
            final(self)@.wf(),
            old(self)@.is_stale(*m) ==> r is Ok && r->Ok_0@.len() == 0 && final(self)@ == old(
                self,
            )@,
            match old(self)@.step(*m, now as nat) {
                Ok((next, commands)) => r is Ok && final(self)@ == next && actions(r->Ok_0@)
                    == commands,
                Err(e) => r is Err && r->Err_0 == e && final(self)@ == old(self)@,
            },
    {
        proof {
            use_type_invariant(&*self);
        }
        let current = match self.scope {
            Some(scope) => scope.program_uid == m.program_uid,
            None => false,
        };
        if !current {
            return Ok(Vec::new());
        }
        match self.mode {
            BbrMode::ProbeRtt => {
                let min_rtt_us = match m.get_probe_minrtt() {
                    Ok(v) => v,
                    Err(e) => {
                        return Err(e);
                    },
                };
                self.mode = BbrMode::ProbeBw;
                self.min_rtt_estimate_us = min_rtt_us;
                self.min_rtt_deadline = now as u128 + self.probe_rtt_interval_us;
                Ok(self.install_probe_bw())
            },
            BbrMode::ProbeBw => {
                let (_loss, min_rtt_us, rate, phase) = match m.get_probe_bw_fields() {
                    Ok(fields) => fields,
                    Err(e) => {
                        return Err(e);
                    },
                };
                let mut commands: Vec<Command> = Vec::new();
                if phase <= MAX_PULSE_STATE {
                    self.pulse_state = phase;
                }
                if min_rtt_us < self.min_rtt_estimate_us {
                    self.min_rtt_estimate_us = min_rtt_us;
                    self.min_rtt_deadline = now as u128 + self.probe_rtt_interval_us;
                    if !self.is_first_probe_bw_entry {
                        let cap = self.cwnd_cap_update();
                        commands.push(cap);
                    }
                }
                if now as u128 > self.min_rtt_deadline {
                    let mut probe = self.install_probe_rtt();
                    commands.append(&mut probe);
                    self.min_rtt_estimate_us = MIN_RTT_SENTINEL_US;
                    self.mode = BbrMode::ProbeRtt;
                    return Ok(commands);
                }
                if self.bottleneck_rate_estimate < rate {
                    self.bottleneck_rate_estimate = rate;
                    self.bottleneck_rate_deadline = now as u128 + self.probe_rtt_interval_us;
                    if !self.is_first_probe_bw_entry {
                        let pacing = self.replace_probe_bw_rate();
                        commands.push(pacing);
                    }
                }
                if self.is_first_probe_bw_entry {
                    let mut start = self.install_probe_bw();
                    commands.append(&mut start);
                    self.is_first_probe_bw_entry = false;
                }
                Ok(commands)
            },
        }
    }

    /// What the controller is doing.
    pub fn mode(&self) -> (r: BbrMode)
        ensures
            r == self@.mode,
    {
        self.mode
    }

    /// The program instance whose reports are current.
    pub fn scope(&self) -> (r: Option<Scope>)
        ensures
            r == self@.scope,
    {
        self.scope
    }

    /// The interval between two probes of the round-trip time, in
    /// microseconds.
    pub fn probe_rtt_interval_us(&self) -> (r: u128)
        ensures
            r == self@.probe_rtt_interval_us,
            r > 0,
    {
        proof {
            use_type_invariant(self);
        }
        self.probe_rtt_interval_us
    }

    /// The estimate of the bottleneck rate, in bytes per second.
    pub fn bottleneck_rate_estimate(&self) -> (r: u64)
        ensures
            r == self@.bottleneck_rate_estimate,
    {
        self.bottleneck_rate_estimate
    }

    /// The time one interval after the rate estimate was last renewed.
    pub fn bottleneck_rate_deadline(&self) -> (r: u128)
        ensures
            r == self@.bottleneck_rate_deadline,
    {
        self.bottleneck_rate_deadline
    }

    /// The estimate of the minimum round-trip time, in microseconds.
    pub fn min_rtt_estimate_us(&self) -> (r: u32)
        ensures
            r == self@.min_rtt_estimate_us,
    {
        self.min_rtt_estimate_us
    }

    /// The time after which the round-trip time is probed anew.
    pub fn min_rtt_deadline(&self) -> (r: u128)
        ensures
            r == self@.min_rtt_deadline,
    {
        self.min_rtt_deadline
    }

    /// The phase of the pacing-gain cycle that the datapath last reported.
    pub fn pulse_state(&self) -> (r: u32)
        ensures
            r == self@.pulse_state,
            r <= MAX_PULSE_STATE,
    {
        proof {
            use_type_invariant(self);
        }
        self.pulse_state
    }

    /// The flow's maximum segment size, in bytes.
    pub fn mss(&self) -> (r: u32)
        ensures
            r == self@.mss,
            0 < r <= MAX_MSS,
    {
        proof {
            use_type_invariant(self);
        }
        self.mss
    }

    /// The flow's initial congestion window, in bytes.
    pub fn initial_cwnd(&self) -> (r: u32)
        ensures
            r == self@.initial_cwnd,
    {
        self.initial_cwnd
    }

    /// Whether the bandwidth-probing program is yet to be installed for the
    /// first time.
    pub fn is_first_probe_bw_entry(&self) -> (r: bool)
        ensures
            r == self@.is_first_probe_bw_entry,
    {
        self.is_first_probe_bw_entry
    }
}

} // verus!
