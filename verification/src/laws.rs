//! What holds of every flow, whatever the datapath reports and whenever.

use vstd::prelude::*;
use crate::model::{BbrMode, FlowState, MIN_RTT_SENTINEL_US, PROBE_RTT_CWND_SEGMENTS};
use crate::pacing::spec_pacing_constants;
use crate::programs::{Action, Constant, Program, Scope, Setting};
use crate::report::{spec_low32, Report, ReportError, ReportField};

verus! {

/// Something that happens to a flow's controller after its creation.
pub enum Event {
    /// A report arrives at the given time.
    Reported(Report, nat),
    /// The datapath confirms an installation as the given scope.
    Installed(Scope),
    /// The datapath refuses an installation.
    Refused,
}

impl FlowState {
    /// The state after one event. A report that cannot be decoded leaves the
    /// state as it was.
    pub open spec fn after(self, event: Event) -> FlowState {
        match event {
            Event::Reported(report, now) => match self.step(report, now) {
                Ok((next, _)) => next,
                Err(_) => self,
            },
            Event::Installed(scope) => self.with_scope(scope),
            Event::Refused => self.with_refusal(),
        }
    }

    /// The state after a sequence of events, the first of them first.
    pub open spec fn after_all(self, events: Seq<Event>) -> FlowState
        decreases events.len(),
    {
        if events.len() == 0 {
            self
        } else {
            self.after_all(events.drop_last()).after(events.last())
        }
    }
}

impl Report {
    /// Whether the report carries every field that `program` reports.
    pub open spec fn is_of(self, program: Program) -> bool {
        forall|field| #[trigger] program.spec_reports(field) ==> self.spec_get(field) is Some
    }
}

impl Action {
    /// The constants that the action sets.
    pub open spec fn constants(self) -> Seq<Setting> {
        match self {
            Action::Install { constants, .. } => constants,
            Action::Update { constants } => constants,
        }
    }

    /// Whether the datapath can carry the action out while `running` runs: an
    /// installation supplies only constants that its program takes, and an
    /// update sets only constants that the running program takes.
    pub open spec fn fits(self, running: Option<Program>) -> bool {
        match self {
            Action::Install { .. } => self.well_formed(),
            Action::Update { constants } => match running {
                Some(program) => forall|i: int|
                    0 <= i < constants.len() ==> program.spec_accepts(
                        #[trigger] constants[i].constant,
                    ),
                None => false,
            },
        }
    }
}

/// The program that runs when the command at `at` is carried out, where
/// `running` ran before the first command and every installation before `at`
/// took effect.
pub open spec fn running_at(running: Option<Program>, commands: Seq<Action>, at: int) -> Option<
    Program,
>
    decreases at,
{
    if at <= 0 || at > commands.len() {
        running
    } else {
        match commands[at - 1] {
            Action::Install { program, .. } => Some(program),
            Action::Update { .. } => running_at(running, commands, at - 1),
        }
    }
}

/// A report that does not carry the identifier of the current program instance
/// changes nothing, neither mode nor estimates nor deadlines, and asks nothing
/// of the datapath, whatever it holds and whenever it arrives.
pub proof fn lemma_stale_report_is_dropped(s: FlowState, report: Report, now: nat)
    requires
        s.is_stale(report),
    ensures
        s.step(report, now) == Ok::<(FlowState, Seq<Action>), ReportError>(
            (s, Seq::<Action>::empty()),
        ),
        s.after(Event::Reported(report, now)) == s,
{
}

/// No event breaks the invariant of a flow. In particular the phase that the
/// controller remembers stays one of the gain cycle's three, whatever phase a
/// report claims.
pub proof fn lemma_invariant_is_kept(s: FlowState, event: Event)
    requires
        s.wf(),
    ensures
        s.after(event).wf(),
{
}

/// The phase that a report carries steers nothing: two reports that differ in
/// their phase alone lead to the same mode, estimates, deadlines and scope,
/// and to the same commands. Only the phase remembered can differ.
pub proof fn lemma_pulse_state_steers_nothing(s: FlowState, a: Report, b: Report, now: nat)
    requires
        a.pulse_state is Some,
        b == (Report { pulse_state: b.pulse_state, ..a }),
        b.pulse_state is Some,
    ensures
        match (s.step(a, now), s.step(b, now)) {
            (Ok((next_a, commands_a)), Ok((next_b, commands_b))) => {
                &&& commands_a == commands_b
                &&& next_a == FlowState { pulse_state: next_a.pulse_state, ..next_b }
            },
            (Err(e), Err(f)) => e == f,
            _ => false,
        },
{
}

/// While the controller probes for bandwidth, a report never raises the
/// estimate of the minimum round-trip time, unless it turns the controller to
/// probing the round-trip time: then the estimate is the sentinel.
pub proof fn lemma_min_rtt_never_rises(s: FlowState, report: Report, now: nat)
    requires
        s.mode == BbrMode::ProbeBw,
    ensures
        ({
            let next = s.after(Event::Reported(report, now));
            match next.mode {
                BbrMode::ProbeBw => next.min_rtt_estimate_us <= s.min_rtt_estimate_us,
                BbrMode::ProbeRtt => next.min_rtt_estimate_us == MIN_RTT_SENTINEL_US,
            }
        }),
{
}

/// While the controller probes for bandwidth, a current report that does not
/// turn it to probing the round-trip time leaves the smaller of the estimate
/// and the report's round-trip time as the estimate. The deadline moves one
/// interval past the report's arrival where the report's time is the smaller,
/// and stays where it is not.
pub proof fn lemma_min_rtt_is_the_smaller(s: FlowState, report: Report, now: nat)
    requires
        s.mode == BbrMode::ProbeBw,
        !s.is_stale(report),
        s.step(report, now) is Ok,
        s.step(report, now)->Ok_0.0.mode == BbrMode::ProbeBw,
    ensures
        ({
            let next = s.step(report, now)->Ok_0.0;
            let sample = spec_low32(report.min_rtt->0) as nat;
            if sample < s.min_rtt_estimate_us {
                &&& next.min_rtt_estimate_us == sample
                &&& next.min_rtt_deadline == now + s.probe_rtt_interval_us
            } else {
                &&& next.min_rtt_estimate_us == s.min_rtt_estimate_us
                &&& next.min_rtt_deadline == s.min_rtt_deadline
            }
        }),
{
}

/// A new flow takes the round-trip time of its first current report, whatever
/// it is below the sentinel.
pub proof fn lemma_first_sample_is_taken(
    interval_us: nat,
    mss: nat,
    initial_cwnd: nat,
    created_at: nat,
    scope: Scope,
    report: Report,
    now: nat,
)
    requires
        interval_us > 0,
        report.program_uid == scope.program_uid,
        report.spec_probe_bw_fields() is Ok,
        spec_low32(report.min_rtt->0) < MIN_RTT_SENTINEL_US,
    ensures
        ({
            let s = FlowState::created(interval_us, mss, initial_cwnd, created_at).with_scope(
                scope,
            );
            let next = s.step(report, now)->Ok_0.0;
            &&& s.step(report, now) is Ok
            &&& next.mode == BbrMode::ProbeBw
            &&& next.min_rtt_estimate_us == spec_low32(report.min_rtt->0)
            &&& next.min_rtt_deadline == now + interval_us
            &&& !next.is_first_probe_bw_entry
        }),
{
}

/// No event lowers the estimate of the bottleneck rate.
pub proof fn lemma_rate_never_falls(s: FlowState, event: Event)
    ensures
        s.after(event).bottleneck_rate_estimate >= s.bottleneck_rate_estimate,
{
}

/// The estimate of the bottleneck rate never falls in the life of a flow:
/// after any sequence of events it is at least what it was.
pub proof fn lemma_rate_never_falls_in_a_lifetime(s: FlowState, events: Seq<Event>)
    ensures
        s.after_all(events).bottleneck_rate_estimate >= s.bottleneck_rate_estimate,
    decreases events.len(),
{
    if events.len() > 0 {
        lemma_rate_never_falls_in_a_lifetime(s, events.drop_last());
        lemma_rate_never_falls(s.after_all(events.drop_last()), events.last());
    }
}

/// While the controller probes for bandwidth, a current report that does not
/// turn it to probing the round-trip time leaves the larger of the estimate and
/// the report's rate as the estimate. The rate's deadline moves one interval
/// past the report's arrival where the report's rate is the larger, and stays
/// where it is not. A report that ends a probe of the round-trip time leaves
/// both as they were.
pub proof fn lemma_rate_is_the_larger(s: FlowState, report: Report, now: nat)
    requires
        !s.is_stale(report),
        s.step(report, now) is Ok,
    ensures
        ({
            let next = s.step(report, now)->Ok_0.0;
            let rate = report.rate->0 as nat;
            if s.mode == BbrMode::ProbeBw && next.mode == BbrMode::ProbeBw
                && s.bottleneck_rate_estimate < rate {
                &&& next.bottleneck_rate_estimate == rate
                &&& next.bottleneck_rate_deadline == now + s.probe_rtt_interval_us
            } else {
                &&& next.bottleneck_rate_estimate == s.bottleneck_rate_estimate
                &&& next.bottleneck_rate_deadline == s.bottleneck_rate_deadline
            }
        }),
{
}

/// While the controller probes for bandwidth, a current report turns it to
/// probing the round-trip time exactly when the deadline of the estimate has
/// passed and the report brings no smaller round-trip time.
pub proof fn lemma_probe_rtt_is_entered_on_a_passed_deadline(
    s: FlowState,
    report: Report,
    now: nat,
)
    requires
        s.wf(),
        s.mode == BbrMode::ProbeBw,
        !s.is_stale(report),
        s.step(report, now) is Ok,
    ensures
        s.step(report, now)->Ok_0.0.mode == BbrMode::ProbeRtt <==> now > s.min_rtt_deadline
            && spec_low32(report.min_rtt->0) >= s.min_rtt_estimate_us,
{
}

/// The report that turns the controller to probing the round-trip time has
/// exactly two commands follow: the installation of the probing program, and
/// an update that sets the window to four segments. It leaves the sentinel as
/// the estimate of the minimum round-trip time; the estimate of the rate, its
/// deadline and the mark of a flow that has not started the gain cycle stay as
/// they were, whatever rate the report brings.
pub proof fn lemma_probe_rtt_entry(s: FlowState, report: Report, now: nat)
    requires
        s.wf(),
        s.mode == BbrMode::ProbeBw,
        s.step(report, now) is Ok,
        s.step(report, now)->Ok_0.0.mode == BbrMode::ProbeRtt,
    ensures
        ({
            let (next, commands) = s.step(report, now)->Ok_0;
            &&& commands == seq![
                Action::Install { program: Program::ProbeRtt, constants: Seq::<Setting>::empty() },
                Action::Update {
                    constants: seq![
                        Setting {
                            constant: Constant::Cwnd,
                            value: (PROBE_RTT_CWND_SEGMENTS * s.mss) as u32,
                        },
                    ],
                },
            ]
            &&& PROBE_RTT_CWND_SEGMENTS * s.mss <= u32::MAX
            &&& next.min_rtt_estimate_us == MIN_RTT_SENTINEL_US
            &&& next.bottleneck_rate_estimate == s.bottleneck_rate_estimate
            &&& next.bottleneck_rate_deadline == s.bottleneck_rate_deadline
            &&& next.is_first_probe_bw_entry == s.is_first_probe_bw_entry
            &&& next.scope == s.scope
        }),
{
}

/// The report that ends a probe of the round-trip time always turns the
/// controller back to probing for bandwidth, with the round-trip time that the
/// report carries as the estimate and the deadline one interval after the
/// report's arrival.
pub proof fn lemma_probe_rtt_exit(s: FlowState, report: Report, now: nat)
    requires
        s.mode == BbrMode::ProbeRtt,
        !s.is_stale(report),
        s.step(report, now) is Ok,
    ensures
        ({
            let (next, commands) = s.step(report, now)->Ok_0;
            &&& next.mode == BbrMode::ProbeBw
            &&& report.spec_probe_minrtt() == Ok::<u32, ReportError>(
                next.min_rtt_estimate_us as u32,
            )
            &&& next.min_rtt_deadline == now + s.probe_rtt_interval_us
            &&& commands == next.probe_bw_commands()
        }),
{
}

/// Every installation that follows from a report supplies only constants that
/// the program installed takes.
pub proof fn lemma_installations_are_well_formed(s: FlowState, report: Report, now: nat)
    requires
        s.step(report, now) is Ok,
    ensures
        ({
            let commands = s.step(report, now)->Ok_0.1;
            forall|i: int| 0 <= i < commands.len() ==> (#[trigger] commands[i]).well_formed()
        }),
{
}

/// No command that follows from a report sets a constant twice.
pub proof fn lemma_constants_are_set_once(s: FlowState, report: Report, now: nat)
    requires
        s.step(report, now) is Ok,
    ensures
        ({
            let commands = s.step(report, now)->Ok_0.1;
            forall|i: int, j: int, k: int|
                0 <= i < commands.len() && 0 <= j < k < commands[i].constants().len()
                    ==> (#[trigger] commands[i].constants()[j]).constant != (
                #[trigger] commands[i].constants()[k]).constant
        }),
{
}

/// A settled controller asks nothing that the datapath cannot carry out. Every
/// command fits the program that runs by then where each installation takes
/// effect before the next command; and every update fits the program that ran
/// before the commands as well, which is the one that still runs where an
/// installation is refused.
pub proof fn lemma_commands_fit(s: FlowState, report: Report, now: nat)
    requires
        s.settled(),
        s.step(report, now) is Ok,
    ensures
        ({
            let commands = s.step(report, now)->Ok_0.1;
            forall|i: int|
                0 <= i < commands.len() ==> {
                    &&& (#[trigger] commands[i]).fits(running_at(s.running(), commands, i))
                    &&& commands[i] is Update ==> commands[i].fits(s.running())
                }
        }),
{
    reveal_with_fuel(running_at, 5);
}

/// A controller stays settled as long as installations are confirmed: after a
/// report, and once the scope of the program that its commands installed is
/// recorded, where they installed one, the controller is settled again.
pub proof fn lemma_confirmation_settles(s: FlowState, report: Report, now: nat, program_uid: u32)
    requires
        s.settled(),
        s.step(report, now) is Ok,
    ensures
        ({
            let (next, commands) = s.step(report, now)->Ok_0;
            let installs = exists|i: int|
                0 <= i < commands.len() && (#[trigger] commands[i]) is Install;
            match running_at(s.running(), commands, commands.len() as int) {
                Some(program) if installs => next.with_scope(
                    Scope { program, program_uid },
                ).settled(),
                _ => !installs && next.settled(),
            }
        }),
{
    reveal_with_fuel(running_at, 5);
    let (next, commands) = s.step(report, now)->Ok_0;
    if s.is_stale(report) {
    } else if s.mode == BbrMode::ProbeRtt || next.mode == BbrMode::ProbeRtt
        || s.is_first_probe_bw_entry {
        assert(commands[commands.len() - 2] is Install || commands[commands.len() - 1] is Install);
    } else {
    }
}

/// A refused installation is absorbed: once the refusal is recorded the
/// controller is settled, whatever it was before, with its scope and its
/// estimate of the rate untouched. A refusal changes nothing in a controller
/// that is settled already.
pub proof fn lemma_refusal_settles(s: FlowState)
    ensures
        s.with_refusal().settled(),
        s.with_refusal().scope == s.scope,
        s.with_refusal().bottleneck_rate_estimate == s.bottleneck_rate_estimate,
        s.wf() && s.settled() ==> s.with_refusal() == s,
{
}

/// A settled controller decodes every report of the program that runs: no
/// such report is an error.
pub proof fn lemma_reports_of_the_running_program_are_decoded(
    s: FlowState,
    report: Report,
    now: nat,
)
    requires
        s.settled(),
        s.scope is Some,
        report.is_of(s.scope->0.program),
    ensures
        s.step(report, now) is Ok,
{
    let program = s.scope->0.program;
    assert(program.spec_reports(ReportField::MinRtt));
    if program != Program::ProbeRtt {
        assert(program.spec_reports(ReportField::Loss));
        assert(program.spec_reports(ReportField::Rate));
        assert(program.spec_reports(ReportField::PulseState));
    }
}

/// Once the gain cycle runs, a report within the deadline that brings a larger
/// rate and no smaller round-trip time has exactly one command follow: the
/// update of the four constants of the gain cycle, computed from the report's
/// rate and the estimate of the round-trip time. Mode, scope and the estimate
/// of the round-trip time stay as they were.
pub proof fn lemma_larger_rate_renews_the_constants(s: FlowState, report: Report, now: nat)
    requires
        s.mode == BbrMode::ProbeBw,
        !s.is_first_probe_bw_entry,
        !s.is_stale(report),
        s.step(report, now) is Ok,
        spec_low32(report.min_rtt->0) >= s.min_rtt_estimate_us,
        now <= s.min_rtt_deadline,
        report.rate->0 > s.bottleneck_rate_estimate,
    ensures
        ({
            let (next, commands) = s.step(report, now)->Ok_0;
            let c = spec_pacing_constants(report.rate->0 as nat, s.min_rtt_estimate_us);
            &&& commands == seq![
                Action::Update {
                    constants: seq![
                        Setting { constant: Constant::BottleRate, value: c.bottle_rate },
                        Setting { constant: Constant::ThreeFourthsRate, value: c.three_fourths_rate },
                        Setting { constant: Constant::FiveFourthsRate, value: c.five_fourths_rate },
                        Setting { constant: Constant::CwndCap, value: c.cwnd_cap },
                    ],
                },
            ]
            &&& next.bottleneck_rate_estimate == report.rate->0
            &&& next.bottleneck_rate_deadline == now + s.probe_rtt_interval_us
            &&& next.mode == BbrMode::ProbeBw
            &&& next.scope == s.scope
            &&& next.min_rtt_estimate_us == s.min_rtt_estimate_us
            &&& next.min_rtt_deadline == s.min_rtt_deadline
        }),
{
}

/// Once the gain cycle runs, a report that brings a smaller round-trip time
/// and no larger rate has exactly one command follow: the update of the window
/// cap, computed from the estimate of the rate and the report's round-trip
/// time.
pub proof fn lemma_smaller_min_rtt_renews_the_window_cap(s: FlowState, report: Report, now: nat)
    requires
        s.wf(),
        s.mode == BbrMode::ProbeBw,
        !s.is_first_probe_bw_entry,
        !s.is_stale(report),
        s.step(report, now) is Ok,
        spec_low32(report.min_rtt->0) < s.min_rtt_estimate_us,
        report.rate->0 <= s.bottleneck_rate_estimate,
    ensures
        ({
            let (next, commands) = s.step(report, now)->Ok_0;
            let c = spec_pacing_constants(
                s.bottleneck_rate_estimate,
                spec_low32(report.min_rtt->0) as nat,
            );
            &&& commands == seq![
                Action::Update {
                    constants: seq![Setting { constant: Constant::CwndCap, value: c.cwnd_cap }],
                },
            ]
            &&& next.mode == BbrMode::ProbeBw
            &&& next.scope == s.scope
            &&& next.bottleneck_rate_estimate == s.bottleneck_rate_estimate
        }),
{
}

} // verus!
