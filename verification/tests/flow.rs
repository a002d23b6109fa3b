use ccp_bbr::{
    Bbr, BbrConfig, BbrMode, Command, Constant, Program, Report, ReportError, ReportField, Scope,
    Setting,
};

/// The interval of the tests, in microseconds.
const INTERVAL: u64 = 10_000_000;

const SENTINEL: u32 = 0x3fff_ffff;

fn config() -> BbrConfig {
    BbrConfig { probe_rtt_interval: 10 }
}

fn scope(program: Program, program_uid: u32) -> Scope {
    Scope { program, program_uid }
}

fn set(constant: Constant, value: u32) -> Setting {
    Setting { constant, value }
}

fn update(constants: Vec<Setting>) -> Command {
    Command::Update { constants }
}

fn install(program: Program, constants: Vec<Setting>) -> Command {
    Command::Install { program, constants }
}

fn report(program_uid: u32, min_rtt: u64, rate: u64) -> Report {
    Report { program_uid, min_rtt: Some(min_rtt), loss: Some(0), rate: Some(rate), pulse_state: Some(0) }
}

/// The commands that start the gain cycle for the given constants.
fn gain_cycle(cwnd_cap: u32, rate: u32, three_fourths: u32, five_fourths: u32) -> Vec<Command> {
    vec![
        update(vec![set(Constant::Cwnd, cwnd_cap), set(Constant::Rate, five_fourths)]),
        install(
            Program::ProbeBw,
            vec![
                set(Constant::CwndCap, cwnd_cap),
                set(Constant::BottleRate, rate),
                set(Constant::ThreeFourthsRate, three_fourths),
                set(Constant::FiveFourthsRate, five_fourths),
            ],
        ),
    ]
}

/// A flow created at time 0 whose bootstrap program runs under scope 1.
fn created() -> Bbr {
    let (mut flow, _) = config().new_flow(1460, 14_600, 0);
    flow.record_scope(scope(Program::Init, 1));
    flow
}

/// A flow whose gain cycle runs under scope 2, with a minimum round-trip time
/// of 20 ms measured at time 1000.
fn cycling() -> Bbr {
    let mut flow = created();
    flow.on_report(0, &report(1, 20_000, 100_000), 1_000).unwrap();
    flow.record_scope(scope(Program::ProbeBw, 2));
    flow
}

/// A flow that turned to probing the round-trip time, under scope 3.
fn probing_rtt() -> Bbr {
    let mut flow = cycling();
    flow.on_report(0, &report(2, 30_000, 100_000), INTERVAL + 1_001).unwrap();
    flow.record_scope(scope(Program::ProbeRtt, 3));
    flow
}

#[test]
fn a_new_flow_starts_from_the_bootstrap_estimates() {
    let (flow, command) = config().new_flow(1460, 14_600, 500);
    assert_eq!(command, install(Program::Init, vec![set(Constant::Cwnd, 14_600)]));
    assert_eq!(flow.mode(), BbrMode::ProbeBw);
    assert_eq!(flow.scope(), None);
    assert_eq!(flow.probe_rtt_interval_us(), u128::from(INTERVAL));
    assert_eq!(flow.bottleneck_rate_estimate(), 125_000);
    assert_eq!(flow.bottleneck_rate_deadline(), u128::from(INTERVAL + 500));
    assert_eq!(flow.min_rtt_estimate_us(), SENTINEL);
    assert_eq!(flow.min_rtt_deadline(), u128::from(INTERVAL + 500));
    assert_eq!(flow.pulse_state(), 0);
    assert_eq!(flow.mss(), 1460);
    assert_eq!(flow.initial_cwnd(), 14_600);
    assert!(flow.is_first_probe_bw_entry());
}

#[test]
fn a_confirmed_installation_sets_the_scope() {
    let (mut flow, _) = config().new_flow(1460, 14_600, 0);
    let before = flow;
    flow.record_scope(scope(Program::Init, 42));
    assert_eq!(flow.scope(), Some(scope(Program::Init, 42)));
    flow.record_scope(scope(Program::ProbeBw, 43));
    assert_eq!(flow.scope(), Some(scope(Program::ProbeBw, 43)));
    flow.record_scope(scope(Program::Init, 42));
    flow.record_scope(scope(Program::Init, 42));
    assert_eq!(flow.scope(), Some(scope(Program::Init, 42)));
    assert_eq!(flow.mode(), before.mode());
    assert_eq!(flow.bottleneck_rate_estimate(), before.bottleneck_rate_estimate());
    assert_eq!(flow.min_rtt_estimate_us(), before.min_rtt_estimate_us());
    assert_eq!(flow.min_rtt_deadline(), before.min_rtt_deadline());
    assert_eq!(flow.bottleneck_rate_deadline(), before.bottleneck_rate_deadline());
    assert!(flow.is_first_probe_bw_entry());
}

#[test]
fn no_report_is_current_before_an_installation_is_confirmed() {
    let (mut flow, _) = config().new_flow(1460, 14_600, 0);
    let before = flow;
    for uid in [0, 1, u32::MAX].iter() {
        assert_eq!(flow.on_report(0, &report(*uid, 20_000, 500_000), 100), Ok(vec![]));
        assert_eq!(flow, before);
    }
}

#[test]
fn the_first_report_starts_the_gain_cycle() {
    let mut flow = created();
    let commands = flow.on_report(9, &report(1, 20_000, 100_000), 1_000).unwrap();
    assert_eq!(commands, gain_cycle(5_000, 125_000, 93_750, 156_250));
    assert_eq!(flow.mode(), BbrMode::ProbeBw);
    assert!(!flow.is_first_probe_bw_entry());
    assert_eq!(flow.min_rtt_estimate_us(), 20_000);
    assert_eq!(flow.min_rtt_deadline(), u128::from(INTERVAL + 1_000));
    assert_eq!(flow.bottleneck_rate_estimate(), 125_000);
    assert_eq!(flow.bottleneck_rate_deadline(), u128::from(INTERVAL));
    // the scope is the caller's to confirm
    assert_eq!(flow.scope(), Some(scope(Program::Init, 1)));
}

#[test]
fn the_first_report_may_raise_the_rate_before_the_gain_cycle_starts() {
    let mut flow = created();
    let commands = flow.on_report(0, &report(1, 10_000, 1_000_000), 2_000).unwrap();
    // one installation, and no update of constants that are not installed yet
    assert_eq!(commands, gain_cycle(20_000, 1_000_000, 750_000, 1_250_000));
    assert_eq!(flow.bottleneck_rate_estimate(), 1_000_000);
    assert_eq!(flow.bottleneck_rate_deadline(), u128::from(INTERVAL + 2_000));
    assert_eq!(flow.min_rtt_estimate_us(), 10_000);
}

#[test]
fn a_stale_report_changes_nothing() {
    for start in [created(), cycling(), probing_rtt()].iter() {
        let mut flow = *start;
        let current = flow.scope().unwrap().program_uid;
        for uid in [0, current - 1, current + 1, u32::MAX].iter() {
            let stale = report(*uid, 1, u64::MAX);
            assert_eq!(flow.on_report(0, &stale, 5 * INTERVAL), Ok(vec![]));
            assert_eq!(flow, *start);
        }
    }
}

#[test]
fn a_stale_report_is_not_decoded() {
    let mut flow = cycling();
    let before = flow;
    let empty = Report { program_uid: 1, min_rtt: None, loss: None, rate: None, pulse_state: None };
    assert_eq!(flow.on_report(0, &empty, 5_000), Ok(vec![]));
    assert_eq!(flow, before);
}

#[test]
fn a_smaller_round_trip_time_renews_the_window_cap() {
    let mut flow = cycling();
    let commands = flow.on_report(0, &report(2, 16_000, 100_000), 3_000).unwrap();
    assert_eq!(commands, vec![update(vec![set(Constant::CwndCap, 4_000)])]);
    assert_eq!(flow.min_rtt_estimate_us(), 16_000);
    assert_eq!(flow.min_rtt_deadline(), u128::from(INTERVAL + 3_000));
    assert_eq!(flow.mode(), BbrMode::ProbeBw);
    assert_eq!(flow.scope(), Some(scope(Program::ProbeBw, 2)));
}

#[test]
fn an_equal_or_larger_round_trip_time_changes_nothing() {
    let mut flow = cycling();
    let before = flow;
    assert_eq!(flow.on_report(0, &report(2, 20_000, 125_000), 3_000), Ok(vec![]));
    assert_eq!(flow.on_report(0, &report(2, 20_001, 0), INTERVAL + 1_000), Ok(vec![]));
    assert_eq!(flow, before);
}

#[test]
fn the_estimate_of_the_round_trip_time_never_rises_in_the_gain_cycle() {
    let mut flow = cycling();
    let samples: [u64; 8] = [25_000, 19_000, 19_500, 18_000, 40_000, 18_000, 17_999, 1_000_000];
    let mut now: u64 = 2_000;
    for sample in samples.iter() {
        let before = flow.min_rtt_estimate_us();
        flow.on_report(0, &report(2, *sample, 0), now).unwrap();
        assert_eq!(flow.mode(), BbrMode::ProbeBw);
        assert!(flow.min_rtt_estimate_us() <= before);
        assert_eq!(flow.min_rtt_estimate_us() as u64, (*sample).min(before as u64));
        now += 1_000;
    }
    assert_eq!(flow.min_rtt_estimate_us(), 17_999);
}

#[test]
fn a_passed_deadline_turns_to_probing_the_round_trip_time() {
    let mut flow = cycling();
    assert_eq!(flow.min_rtt_deadline(), u128::from(INTERVAL + 1_000));
    let commands = flow.on_report(0, &report(2, 30_000, 9_000_000), INTERVAL + 1_001).unwrap();
    assert_eq!(
        commands,
        vec![install(Program::ProbeRtt, vec![]), update(vec![set(Constant::Cwnd, 5_840)])]
    );
    assert_eq!(flow.mode(), BbrMode::ProbeRtt);
    assert_eq!(flow.min_rtt_estimate_us(), 0x3fff_ffff);
    // the report's rate is not looked at
    assert_eq!(flow.bottleneck_rate_estimate(), 125_000);
    assert_eq!(flow.bottleneck_rate_deadline(), u128::from(INTERVAL));
    assert_eq!(flow.min_rtt_deadline(), u128::from(INTERVAL + 1_001 - 1));
    assert!(!flow.is_first_probe_bw_entry());
}

#[test]
fn the_deadline_itself_has_not_passed() {
    let mut flow = cycling();
    assert_eq!(flow.on_report(0, &report(2, 30_000, 100_000), INTERVAL + 1_000), Ok(vec![]));
    assert_eq!(flow.mode(), BbrMode::ProbeBw);
    assert_eq!(flow.min_rtt_estimate_us(), 20_000);
}

#[test]
fn a_smaller_round_trip_time_puts_the_probe_off() {
    let mut flow = cycling();
    let commands = flow.on_report(0, &report(2, 19_999, 100_000), 3 * INTERVAL).unwrap();
    assert_eq!(commands, vec![update(vec![set(Constant::CwndCap, 4_999)])]);
    assert_eq!(flow.mode(), BbrMode::ProbeBw);
    assert_eq!(flow.min_rtt_deadline(), u128::from(4 * INTERVAL));
}

#[test]
fn the_window_of_the_probe_is_four_segments() {
    for mss in [1u32, 536, 1460, 9000, 0x3fff_ffff].iter() {
        let (mut flow, _) = config().new_flow(*mss, 10 * 1460, 0);
        flow.record_scope(scope(Program::Init, 1));
        let commands = flow.on_report(0, &report(1, u64::from(SENTINEL), 0), INTERVAL + 1).unwrap();
        assert_eq!(
            commands,
            vec![install(Program::ProbeRtt, vec![]), update(vec![set(Constant::Cwnd, 4 * *mss)])]
        );
        assert_eq!(flow.min_rtt_estimate_us(), 0x3fff_ffff);
        assert_eq!(flow.mode(), BbrMode::ProbeRtt);
    }
}

#[test]
fn a_larger_rate_renews_the_pacing_constants() {
    let mut flow = cycling();
    // 100 Mbit/s, then 150 Mbit/s
    let commands = flow.on_report(0, &report(2, 20_000, 12_500_000), 3_000).unwrap();
    assert_eq!(
        commands,
        vec![update(vec![
            set(Constant::BottleRate, 12_500_000),
            set(Constant::ThreeFourthsRate, 9_375_000),
            set(Constant::FiveFourthsRate, 15_625_000),
            set(Constant::CwndCap, 500_000),
        ])]
    );
    assert_eq!(flow.bottleneck_rate_estimate(), 12_500_000);
    assert_eq!(flow.bottleneck_rate_deadline(), u128::from(INTERVAL + 3_000));
    let commands = flow.on_report(0, &report(2, 20_000, 18_750_000), 4_000).unwrap();
    assert_eq!(
        commands,
        vec![update(vec![
            set(Constant::BottleRate, 18_750_000),
            set(Constant::ThreeFourthsRate, 14_062_500),
            set(Constant::FiveFourthsRate, 23_437_500),
            set(Constant::CwndCap, 750_000),
        ])]
    );
    assert_eq!(flow.bottleneck_rate_estimate(), 18_750_000);
    assert_eq!(flow.bottleneck_rate_deadline(), u128::from(INTERVAL + 4_000));
    assert_eq!(flow.min_rtt_estimate_us(), 20_000);
    assert_eq!(flow.min_rtt_deadline(), u128::from(INTERVAL + 1_000));
    assert_eq!(flow.scope(), Some(scope(Program::ProbeBw, 2)));
    assert_eq!(flow.mode(), BbrMode::ProbeBw);
}

#[test]
fn an_equal_or_smaller_rate_changes_nothing() {
    let mut flow = cycling();
    let before = flow;
    assert_eq!(flow.on_report(0, &report(2, 20_000, 125_000), 3_000), Ok(vec![]));
    assert_eq!(flow.on_report(0, &report(2, 20_000, 124_999), 3_000), Ok(vec![]));
    assert_eq!(flow.on_report(0, &report(2, 20_000, 0), 3_000), Ok(vec![]));
    assert_eq!(flow, before);
}

#[test]
fn the_estimate_of_the_rate_never_falls() {
    let mut flow = created();
    let rates: [u64; 9] = [0, 200_000, 150_000, 200_000, 200_001, 1, u64::MAX, 5, u64::MAX];
    let mut uid: u32 = 1;
    let mut now: u64 = 0;
    let mut best: u64 = 125_000;
    for round in 0..4 {
        for rate in rates.iter() {
            now += 3_000_000;
            let before = flow.bottleneck_rate_estimate();
            let min_rtt = 50_000 - (round as u64);
            let commands = flow.on_report(0, &report(uid, min_rtt, *rate), now).unwrap();
            assert!(flow.bottleneck_rate_estimate() >= before);
            for command in commands.iter() {
                if let Command::Install { program, .. } = command {
                    uid += 1;
                    flow.record_scope(scope(*program, uid));
                }
            }
            if flow.bottleneck_rate_estimate() != before {
                assert_eq!(flow.bottleneck_rate_estimate(), *rate);
                best = *rate;
            }
            assert_eq!(flow.bottleneck_rate_estimate(), best);
        }
    }
    assert_eq!(flow.bottleneck_rate_estimate(), u64::MAX);
}

#[test]
fn a_report_may_lower_the_round_trip_time_and_raise_the_rate() {
    let mut flow = cycling();
    let commands = flow.on_report(0, &report(2, 10_000, 1_000_000), 7_000).unwrap();
    assert_eq!(
        commands,
        vec![
            // the cap for the old rate and the new round-trip time
            update(vec![set(Constant::CwndCap, 2_500)]),
            // then all four constants for the new rate
            update(vec![
                set(Constant::BottleRate, 1_000_000),
                set(Constant::ThreeFourthsRate, 750_000),
                set(Constant::FiveFourthsRate, 1_250_000),
                set(Constant::CwndCap, 20_000),
            ]),
        ]
    );
    assert_eq!(flow.min_rtt_deadline(), u128::from(INTERVAL + 7_000));
    assert_eq!(flow.bottleneck_rate_deadline(), u128::from(INTERVAL + 7_000));
}

#[test]
fn the_end_of_a_probe_restarts_the_gain_cycle() {
    let mut flow = probing_rtt();
    let end = Report { program_uid: 3, min_rtt: Some(15_000), loss: None, rate: None, pulse_state: None };
    let now = INTERVAL + 300_000;
    let commands = flow.on_report(0, &end, now).unwrap();
    assert_eq!(commands, gain_cycle(3_750, 125_000, 93_750, 156_250));
    assert_eq!(flow.mode(), BbrMode::ProbeBw);
    assert_eq!(flow.min_rtt_estimate_us(), 15_000);
    assert_eq!(flow.min_rtt_deadline(), u128::from(now + INTERVAL));
    assert_eq!(flow.bottleneck_rate_estimate(), 125_000);
    assert_eq!(flow.bottleneck_rate_deadline(), u128::from(INTERVAL));
    assert!(!flow.is_first_probe_bw_entry());
}

#[test]
fn a_probe_may_measure_a_larger_round_trip_time() {
    let mut flow = probing_rtt();
    let commands = flow.on_report(0, &report(3, 45_000, u64::MAX), 2 * INTERVAL).unwrap();
    assert_eq!(commands, gain_cycle(11_250, 125_000, 93_750, 156_250));
    assert_eq!(flow.min_rtt_estimate_us(), 45_000);
    // a probe takes no rate
    assert_eq!(flow.bottleneck_rate_estimate(), 125_000);
}

#[test]
fn a_flow_may_probe_the_round_trip_time_before_its_first_gain_cycle() {
    let mut flow = created();
    let commands = flow.on_report(0, &report(1, u64::from(u32::MAX), 500_000), INTERVAL + 1).unwrap();
    assert_eq!(
        commands,
        vec![install(Program::ProbeRtt, vec![]), update(vec![set(Constant::Cwnd, 5_840)])]
    );
    assert_eq!(flow.mode(), BbrMode::ProbeRtt);
    assert!(flow.is_first_probe_bw_entry());
    flow.record_scope(scope(Program::ProbeRtt, 2));
    let commands = flow.on_report(0, &report(2, 30_000, 500_000), INTERVAL + 250_000).unwrap();
    assert_eq!(commands, gain_cycle(7_500, 125_000, 93_750, 156_250));
    assert_eq!(flow.mode(), BbrMode::ProbeBw);
    assert!(flow.is_first_probe_bw_entry());
    flow.record_scope(scope(Program::ProbeBw, 3));
    let commands = flow.on_report(0, &report(3, 30_000, 500_000), INTERVAL + 260_000).unwrap();
    assert_eq!(commands, gain_cycle(30_000, 500_000, 375_000, 625_000));
    assert!(!flow.is_first_probe_bw_entry());
}

#[test]
fn the_phase_of_a_report_steers_nothing() {
    for start in [created(), cycling()].iter() {
        let uid = start.scope().unwrap().program_uid;
        for now in [5_000, 3 * INTERVAL].iter() {
            for (min_rtt, rate) in [(10_000u64, 0u64), (10_000, 900_000), (0x4000_0000, 900_000)].iter() {
                let mut reference = *start;
                let plain = report(uid, *min_rtt, *rate);
                let expected = reference.on_report(0, &plain, *now).unwrap();
                for phase in [1u64, 2, 3, 5, 0x1_0000_0000, u64::MAX].iter() {
                    let mut flow = *start;
                    let r = Report { pulse_state: Some(*phase), ..plain };
                    assert_eq!(flow.on_report(0, &r, *now).unwrap(), expected);
                    assert_eq!(flow.mode(), reference.mode());
                    assert_eq!(flow.scope(), reference.scope());
                    assert_eq!(flow.min_rtt_estimate_us(), reference.min_rtt_estimate_us());
                    assert_eq!(flow.min_rtt_deadline(), reference.min_rtt_deadline());
                    assert_eq!(flow.bottleneck_rate_estimate(), reference.bottleneck_rate_estimate());
                    assert_eq!(flow.bottleneck_rate_deadline(), reference.bottleneck_rate_deadline());
                    assert_eq!(flow.is_first_probe_bw_entry(), reference.is_first_probe_bw_entry());
                }
            }
        }
    }
}

#[test]
fn the_phase_remembered_is_one_of_three() {
    let mut flow = cycling();
    assert_eq!(flow.pulse_state(), 0);
    let with_phase = |phase: u64| Report { pulse_state: Some(phase), ..report(2, 20_000, 0) };
    flow.on_report(0, &with_phase(1), 2_000).unwrap();
    assert_eq!(flow.pulse_state(), 1);
    flow.on_report(0, &with_phase(2), 3_000).unwrap();
    assert_eq!(flow.pulse_state(), 2);
    flow.on_report(0, &with_phase(5), 4_000).unwrap();
    assert_eq!(flow.pulse_state(), 2);
    flow.on_report(0, &with_phase(3), 4_000).unwrap();
    assert_eq!(flow.pulse_state(), 2);
    flow.on_report(0, &with_phase(0), 5_000).unwrap();
    assert_eq!(flow.pulse_state(), 0);
    // a phase is a 32-bit counter
    flow.on_report(0, &with_phase(0x1_0000_0001), 6_000).unwrap();
    assert_eq!(flow.pulse_state(), 1);
    // the bootstrap program reports 5
    let mut flow = created();
    flow.on_report(0, &Report { pulse_state: Some(5), ..report(1, 20_000, 0) }, 1_000).unwrap();
    assert_eq!(flow.pulse_state(), 0);
}

#[test]
fn a_report_of_the_gain_cycle_needs_all_four_fields() {
    let full = report(2, 10_000, 1_000_000);
    let cases = [
        (Report { min_rtt: None, ..full }, ReportField::MinRtt),
        (Report { loss: None, ..full }, ReportField::Loss),
        (Report { rate: None, ..full }, ReportField::Rate),
        (Report { pulse_state: None, ..full }, ReportField::PulseState),
        (Report { min_rtt: None, pulse_state: None, ..full }, ReportField::MinRtt),
        (Report { loss: None, rate: None, ..full }, ReportField::Loss),
    ];
    for (r, missing) in cases.iter() {
        let mut flow = cycling();
        let before = flow;
        assert_eq!(flow.on_report(0, r, 5 * INTERVAL), Err(ReportError::MissingField(*missing)));
        assert_eq!(flow, before);
    }
}

#[test]
fn a_report_of_a_probe_needs_the_round_trip_time() {
    let mut flow = probing_rtt();
    let before = flow;
    let r = Report { min_rtt: None, ..report(3, 0, 1_000_000) };
    assert_eq!(flow.on_report(0, &r, 2 * INTERVAL), Err(ReportError::MissingField(ReportField::MinRtt)));
    assert_eq!(flow, before);
    let r = Report { program_uid: 3, min_rtt: Some(1), loss: None, rate: None, pulse_state: None };
    assert!(flow.on_report(0, &r, 2 * INTERVAL).is_ok());
}

#[test]
fn reported_counters_wrap_at_32_bits() {
    let mut flow = cycling();
    flow.on_report(0, &report(2, 0x1_0000_0000 + 5_000, 0), 2_000).unwrap();
    assert_eq!(flow.min_rtt_estimate_us(), 5_000);
    let mut flow = probing_rtt();
    flow.on_report(0, &report(3, u64::MAX, 0), 2 * INTERVAL).unwrap();
    assert_eq!(flow.min_rtt_estimate_us(), u32::MAX);
}

#[test]
fn constants_are_pinned_to_their_registers() {
    let mut flow = cycling();
    let commands = flow.on_report(0, &report(2, 20_000, u64::MAX), 2_000).unwrap();
    assert_eq!(
        commands,
        vec![update(vec![
            set(Constant::BottleRate, u32::MAX),
            set(Constant::ThreeFourthsRate, u32::MAX),
            set(Constant::FiveFourthsRate, u32::MAX),
            set(Constant::CwndCap, u32::MAX),
        ])]
    );
    assert_eq!(flow.bottleneck_rate_estimate(), u64::MAX);
}

#[test]
fn replacing_the_rate_names_four_constants() {
    let flow = cycling();
    assert_eq!(
        flow.replace_probe_bw_rate(),
        update(vec![
            set(Constant::BottleRate, 125_000),
            set(Constant::ThreeFourthsRate, 93_750),
            set(Constant::FiveFourthsRate, 156_250),
            set(Constant::CwndCap, 5_000),
        ])
    );
    assert_eq!(flow.install_probe_bw(), gain_cycle(5_000, 125_000, 93_750, 156_250));
}

#[test]
fn every_command_names_constants_that_the_running_program_takes() {
    let mut flow = created();
    let mut uid: u32 = 1;
    let mut now: u64 = 0;
    let mut installed: u32 = 0;
    let mut updated: u32 = 0;
    for i in 0..40u64 {
        now += 2_500_000;
        let min_rtt: u64 = if i % 9 == 2 { 39_000 } else { 40_000 };
        let r = report(uid, min_rtt, 100_000 + 50_000 * (i % 7) * i);
        for command in flow.on_report(0, &r, now).unwrap().iter() {
            match command {
                Command::Install { program, constants } => {
                    for s in constants.iter() {
                        assert!(program.accepts(s.constant));
                    }
                    uid += 1;
                    installed += 1;
                    flow.record_scope(scope(*program, uid));
                }
                Command::Update { constants } => {
                    // an update goes to the program that runs by then
                    let running = flow.scope().unwrap().program;
                    for (k, s) in constants.iter().enumerate() {
                        assert!(running.accepts(s.constant));
                        for t in constants[..k].iter() {
                            assert_ne!(s.constant, t.constant);
                        }
                    }
                    updated += 1;
                }
            }
        }
    }
    assert!(installed >= 4);
    assert!(updated >= 8);
}

#[test]
fn a_deadline_may_be_the_last_moment_of_the_clock() {
    let (mut flow, _) = config().new_flow(1460, 14_600, u64::MAX);
    assert_eq!(flow.min_rtt_deadline(), u128::from(u64::MAX) + u128::from(INTERVAL));
    flow.record_scope(scope(Program::Init, 1));
    flow.on_report(0, &report(1, 20_000, 500_000), u64::MAX).unwrap();
    assert_eq!(flow.min_rtt_deadline(), u128::from(u64::MAX) + u128::from(INTERVAL));
    assert_eq!(flow.bottleneck_rate_deadline(), u128::from(u64::MAX) + u128::from(INTERVAL));
    assert_eq!(flow.mode(), BbrMode::ProbeBw);
}

#[test]
fn the_longest_interval_never_passes() {
    let longest = BbrConfig { probe_rtt_interval: u64::MAX };
    let (mut flow, _) = longest.new_flow(1460, 14_600, u64::MAX);
    let interval = u128::from(u64::MAX) * 1_000_000;
    assert_eq!(flow.probe_rtt_interval_us(), interval);
    assert_eq!(flow.min_rtt_deadline(), u128::from(u64::MAX) + interval);
    flow.record_scope(scope(Program::Init, 1));
    let commands = flow.on_report(0, &report(1, u64::from(SENTINEL), 0), u64::MAX).unwrap();
    assert_eq!(commands, gain_cycle(268_435_455, 125_000, 93_750, 156_250));
    flow.record_scope(scope(Program::ProbeBw, 2));
    assert_eq!(flow.on_report(0, &report(2, u64::from(SENTINEL), 0), u64::MAX), Ok(vec![]));
    assert_eq!(flow.mode(), BbrMode::ProbeBw);
}

#[test]
fn the_first_sample_is_taken_whatever_it_is() {
    // two seconds
    let mut flow = created();
    let commands = flow.on_report(0, &report(1, 2_000_000, 0), 1_000).unwrap();
    assert_eq!(flow.min_rtt_estimate_us(), 2_000_000);
    assert_eq!(flow.min_rtt_deadline(), u128::from(INTERVAL + 1_000));
    assert_eq!(commands, gain_cycle(500_000, 125_000, 93_750, 156_250));
    // just below the sentinel
    let mut flow = created();
    flow.on_report(0, &report(1, u64::from(SENTINEL) - 1, 0), 1_000).unwrap();
    assert_eq!(flow.min_rtt_estimate_us(), SENTINEL - 1);
    // the sentinel itself is no sample
    let mut flow = created();
    flow.on_report(0, &report(1, u64::from(SENTINEL), 0), 1_000).unwrap();
    assert_eq!(flow.min_rtt_estimate_us(), SENTINEL);
    assert_eq!(flow.min_rtt_deadline(), u128::from(INTERVAL));
}

#[test]
fn a_refused_installation_of_the_gain_cycle_after_a_probe_is_absorbed() {
    let mut flow = probing_rtt();
    let end = Report { program_uid: 3, min_rtt: Some(15_000), loss: None, rate: None, pulse_state: None };
    let commands = flow.on_report(0, &end, INTERVAL + 300_000).unwrap();
    assert_eq!(commands, gain_cycle(3_750, 125_000, 93_750, 156_250));
    assert_eq!(flow.mode(), BbrMode::ProbeBw);
    // the datapath refuses: the probe goes on under its scope
    flow.record_refusal();
    assert_eq!(flow.mode(), BbrMode::ProbeRtt);
    assert_eq!(flow.scope(), Some(scope(Program::ProbeRtt, 3)));
    assert_eq!(flow.min_rtt_estimate_us(), SENTINEL);
    assert_eq!(flow.bottleneck_rate_estimate(), 125_000);
    // its next report is decoded, and the gain cycle is asked for again
    let end = Report { min_rtt: Some(14_000), ..end };
    let commands = flow.on_report(0, &end, INTERVAL + 600_000).unwrap();
    assert_eq!(commands, gain_cycle(3_500, 125_000, 93_750, 156_250));
    assert_eq!(flow.mode(), BbrMode::ProbeBw);
    assert_eq!(flow.min_rtt_estimate_us(), 14_000);
    assert_eq!(flow.min_rtt_deadline(), u128::from(2 * INTERVAL + 600_000));
}

#[test]
fn a_refused_installation_of_the_probe_is_absorbed() {
    let mut flow = cycling();
    let commands = flow.on_report(0, &report(2, 30_000, 100_000), INTERVAL + 1_001).unwrap();
    assert_eq!(commands.len(), 2);
    assert_eq!(flow.mode(), BbrMode::ProbeRtt);
    flow.record_refusal();
    assert_eq!(flow.mode(), BbrMode::ProbeBw);
    assert_eq!(flow.scope(), Some(scope(Program::ProbeBw, 2)));
    assert!(!flow.is_first_probe_bw_entry());
    assert_eq!(flow.min_rtt_estimate_us(), SENTINEL);
    // the gain cycle goes on: its next report is decoded and brings the round-trip time back
    let commands = flow.on_report(0, &report(2, 30_000, 100_000), INTERVAL + 2_000).unwrap();
    assert_eq!(commands, vec![update(vec![set(Constant::CwndCap, 7_500)])]);
    assert_eq!(flow.mode(), BbrMode::ProbeBw);
    assert_eq!(flow.min_rtt_estimate_us(), 30_000);
    assert_eq!(flow.min_rtt_deadline(), u128::from(2 * INTERVAL + 2_000));
}

#[test]
fn a_refused_first_installation_of_the_gain_cycle_is_absorbed() {
    let mut flow = created();
    let commands = flow.on_report(0, &report(1, 20_000, 100_000), 1_000).unwrap();
    assert_eq!(commands, gain_cycle(5_000, 125_000, 93_750, 156_250));
    assert!(!flow.is_first_probe_bw_entry());
    flow.record_refusal();
    assert!(flow.is_first_probe_bw_entry());
    assert_eq!(flow.mode(), BbrMode::ProbeBw);
    assert_eq!(flow.scope(), Some(scope(Program::Init, 1)));
    assert_eq!(flow.min_rtt_estimate_us(), 20_000);
    // the next report of the bootstrap program asks for the gain cycle again,
    // and for no update of constants that are not installed
    let commands = flow.on_report(0, &report(1, 18_000, 200_000), 2_000).unwrap();
    assert_eq!(commands, gain_cycle(7_200, 200_000, 150_000, 250_000));
    assert!(!flow.is_first_probe_bw_entry());
}

#[test]
fn a_refused_installation_of_the_bootstrap_program_leaves_no_current_report() {
    let (mut flow, _) = config().new_flow(1460, 14_600, 0);
    let before = flow;
    flow.record_refusal();
    assert_eq!(flow, before);
    assert_eq!(flow.scope(), None);
    assert_eq!(flow.on_report(0, &report(0, 20_000, 100_000), 1_000), Ok(vec![]));
    assert_eq!(flow, before);
}

#[test]
fn a_refusal_changes_nothing_in_a_settled_flow() {
    for start in [created(), cycling(), probing_rtt()].iter() {
        let mut flow = *start;
        flow.record_refusal();
        assert_eq!(flow, *start);
    }
}

#[test]
fn every_report_of_the_running_program_is_decoded_whatever_is_refused() {
    // every third installation is refused
    let mut flow = created();
    let mut running = scope(Program::Init, 1);
    let mut now: u64 = 0;
    let mut asked: u32 = 0;
    for i in 0..60u64 {
        now += 2_500_000;
        let all = [ReportField::MinRtt, ReportField::Loss, ReportField::Rate, ReportField::PulseState];
        let value = |field: ReportField| {
            if running.program.reports(field) { Some(40_000 + i % 2) } else { None }
        };
        let r = Report {
            program_uid: running.program_uid,
            min_rtt: value(all[0]),
            loss: value(all[1]),
            rate: value(all[2]),
            pulse_state: value(all[3]).map(|v| v % 3),
        };
        let commands = flow.on_report(0, &r, now).unwrap();
        for command in commands.iter() {
            if let Command::Install { program, .. } = command {
                asked += 1;
                if asked % 3 == 0 {
                    flow.record_refusal();
                } else {
                    running = scope(*program, running.program_uid + 1);
                    flow.record_scope(running);
                }
                assert_eq!(flow.scope(), Some(running));
            }
        }
    }
    assert!(asked >= 9);
}
