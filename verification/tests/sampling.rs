use pico::codec::PedalReport;
use pico::sampling::IterationInput;
use pico::sampling::LoopControl;
use pico::sampling::SessionError;
use pico::sampling::WriteError;
use pico::sampling::WriteOutcome;
use pico::sampling::adapter_write_report;
use pico::sampling::control_after_write;
use pico::sampling::run_loop;
use pico::sampling::run_session;

fn quiet(n: usize) -> Vec<IterationInput> {
    let mut v = Vec::new();
    for _ in 0..n {
        v.push(IterationInput {
            timer_expired: false,
            write_outcome: WriteOutcome::Queued,
        });
    }
    v
}

#[test]
fn adapter_write_outcomes() {
    let report = PedalReport { y: 10 };
    assert_eq!(adapter_write_report(&report, WriteOutcome::Queued), Ok(0x0a));
    assert_eq!(
        adapter_write_report(&report, WriteOutcome::WouldBlock),
        Err(WriteError::WouldBlock)
    );
    assert_eq!(
        adapter_write_report(&report, WriteOutcome::Fault),
        Err(WriteError::Transport)
    );
}

#[test]
fn adapter_write_rejects_out_of_range_before_transport() {
    let report = PedalReport { y: -128 };
    assert_eq!(
        adapter_write_report(&report, WriteOutcome::Queued),
        Err(WriteError::Serialization)
    );
}

#[test]
fn only_would_block_and_success_continue() {
    assert_eq!(control_after_write(&Ok(0x0a)), LoopControl::Continue);
    assert_eq!(
        control_after_write(&Err(WriteError::WouldBlock)),
        LoopControl::Continue
    );
    assert_eq!(
        control_after_write(&Err(WriteError::Transport)),
        LoopControl::Halt
    );
    assert_eq!(
        control_after_write(&Err(WriteError::Serialization)),
        LoopControl::Halt
    );
}

#[test]
fn one_write_per_expiry() {
    // The timer expires exactly once per period; here every fourth
    // iteration of a loop that spins faster than the period.
    let report = PedalReport { y: 42 };
    let mut inputs = Vec::new();
    for i in 0..12 {
        inputs.push(IterationInput {
            timer_expired: i % 4 == 3,
            write_outcome: WriteOutcome::Queued,
        });
    }
    let t = run_loop(&report, &inputs);
    assert_eq!(t.write_attempts, 3);
    assert_eq!(t.polls, 12);
    assert!(!t.fault);
}

#[test]
fn would_block_forever_never_halts_and_keeps_polling() {
    let report = PedalReport { y: 10 };
    let mut inputs = Vec::new();
    for i in 0..10 {
        inputs.push(IterationInput {
            timer_expired: i % 2 == 0,
            write_outcome: WriteOutcome::WouldBlock,
        });
    }
    let t = run_loop(&report, &inputs);
    assert!(!t.fault);
    assert_eq!(t.polls, 10);
    assert_eq!(t.write_attempts, 5);
    // No retry queue: dropped samples are not buffered.
    assert!(t.queued.is_empty());
}

#[test]
fn polls_every_iteration_even_without_expiry() {
    let report = PedalReport { y: 10 };
    let inputs = quiet(7);
    let t = run_loop(&report, &inputs);
    assert_eq!(t.polls, 7);
    assert_eq!(t.write_attempts, 0);
    assert!(t.polls >= t.write_attempts);
    assert!(t.queued.is_empty());
    assert!(!t.fault);
}

#[test]
fn three_periods_deliver_three_reports() {
    // Timer period 1000 time units; the loop spins once per 250 units,
    // so the countdown is observed expired on every fourth iteration.
    // After 3 period expirations with every write accepted, exactly 3
    // one-byte reports of value 0x0a are on the transport.
    let report = PedalReport { y: 10 };
    let mut inputs = Vec::new();
    for time in (250..=3000).step_by(250) {
        inputs.push(IterationInput {
            timer_expired: time % 1000 == 0,
            write_outcome: WriteOutcome::Queued,
        });
    }
    let t = run_loop(&report, &inputs);
    assert_eq!(t.write_attempts, 3);
    assert_eq!(t.queued, vec![0x0a, 0x0a, 0x0a]);
    assert!(!t.fault);
}

#[test]
fn transport_fault_halts_the_loop() {
    let report = PedalReport { y: 10 };
    let mut inputs = quiet(2);
    inputs.push(IterationInput {
        timer_expired: true,
        write_outcome: WriteOutcome::Queued,
    });
    inputs.push(IterationInput {
        timer_expired: true,
        write_outcome: WriteOutcome::Fault,
    });
    inputs.extend(quiet(3));
    let t = run_loop(&report, &inputs);
    assert!(t.fault);
    // The fatal iteration writes but never reaches its transport poll,
    // and nothing after it runs.
    assert_eq!(t.polls, 3);
    assert_eq!(t.write_attempts, 2);
    assert_eq!(t.queued, vec![0x0a]);
}

#[test]
fn unencodable_report_halts_the_loop() {
    let report = PedalReport { y: -128 };
    let mut inputs = quiet(1);
    inputs.push(IterationInput {
        timer_expired: true,
        write_outcome: WriteOutcome::Queued,
    });
    inputs.extend(quiet(4));
    let t = run_loop(&report, &inputs);
    assert!(t.fault);
    assert_eq!(t.polls, 1);
    assert_eq!(t.write_attempts, 1);
    assert!(t.queued.is_empty());
}

#[test]
fn failed_allocation_prevents_the_loop() {
    let report = PedalReport { y: 10 };
    let mut inputs = Vec::new();
    for _ in 0..5 {
        inputs.push(IterationInput {
            timer_expired: true,
            write_outcome: WriteOutcome::Queued,
        });
    }
    let r = run_session(false, &report, &inputs);
    assert!(matches!(r, Err(SessionError::Construction)));
}

#[test]
fn successful_allocation_enters_the_loop() {
    let report = PedalReport { y: 10 };
    let mut inputs = quiet(3);
    inputs.push(IterationInput {
        timer_expired: true,
        write_outcome: WriteOutcome::Queued,
    });
    let t = run_session(true, &report, &inputs).expect("allocation succeeded");
    assert_eq!(t.polls, 4);
    assert_eq!(t.queued, vec![0x0a]);
}
