use ppt_tas::breakpoint::{Stop, BREAKPOINT_EXCEPTION, SINGLE_STEP_EXCEPTION};
use ppt_tas::playback::{Action, Counters, Driver, Event, Phase, Poll, Register};
use ppt_tas::records::{parse_frame, parse_seed, InputFrame, RecordError};

const SEED_SITE: u64 = 0x1_4003_F87F;
const INPUT_SITE: u64 = 0x1_413C_7D9A;
const CODE: u64 = 0x9090_9090_9090_8B48;

/// What a run against a target that reaches every breakpoint left behind.
struct Run {
    writes: Vec<(Register, u64)>,
    /// The register writes made at each input-site hit, by hit number from 1.
    input_hits: Vec<(usize, u64)>,
    hits_at_input: usize,
    arms_at_input: usize,
    records_pulled: usize,
    code: u64,
    last: Action,
}

fn run(seed: &[u8], skip: u64, frames: &[&[u8]], fail_at_write: Option<usize>) -> Run {
    let mut d = Driver::new(SEED_SITE, INPUT_SITE, skip);
    let mut action = d.start();
    let mut code = CODE;
    let mut frames = frames.iter();
    let mut r = Run {
        writes: vec![],
        input_hits: vec![],
        hits_at_input: 0,
        arms_at_input: 0,
        records_pulled: 0,
        code,
        last: Action::Detach,
    };
    let mut code_writes = 0;
    for _ in 0..100_000 {
        let event = match action {
            Action::ReadCode { address } => {
                if address == INPUT_SITE {
                    r.arms_at_input += 1;
                }
                Event::CodeRead { word: code }
            }
            Action::WriteCode { word, .. } => {
                code_writes += 1;
                if Some(code_writes) == fail_at_write {
                    Event::Failed
                } else {
                    code = word;
                    Event::Done
                }
            }
            Action::Resume { .. } | Action::Step { .. } | Action::Wait => Event::Stopped { stop: Stop::Trap },
            Action::SetPosition { address } => {
                if address == INPUT_SITE {
                    r.hits_at_input += 1;
                }
                Event::Done
            }
            Action::ReadSeed => Event::Seed { record: parse_seed(seed) },
            Action::ReadFrame => {
                r.records_pulled += 1;
                let line: &[u8] = frames.next().copied().unwrap_or(b"");
                Event::Frame { record: parse_frame(line) }
            }
            Action::SetRegister { register, value } => {
                r.writes.push((register, value));
                if register == Register::Input {
                    r.input_hits.push((r.hits_at_input, value));
                }
                Event::Done
            }
            Action::Detach => break,
        };
        action = d.next(event);
        r.last = action;
    }
    assert!(d.is_finished());
    r.code = code;
    r
}

#[test]
fn end_to_end_scenario() {
    let r = run(b"2A\n", 2, &[b"<< 3\n", b"d\n", b"\n"], None);
    assert_eq!(
        r.writes,
        vec![
            (Register::Seed, 0x2A),
            (Register::Input, 0x01),
            (Register::Input, 0x01),
            (Register::Input, 0x01),
            (Register::Input, 0x04),
        ]
    );
    assert_eq!(r.input_hits, vec![(3, 0x01), (4, 0x01), (5, 0x01), (6, 0x04)]);
    assert_eq!(r.hits_at_input, 7);
    assert_eq!(r.arms_at_input, 7);
    assert_eq!(r.last, Action::Detach);
    assert_eq!(r.code, CODE);
}

#[test]
fn seed_is_masked_to_sixteen_bits() {
    let r = run(b"1FFFF\n", 0, &[b"\n"], None);
    assert_eq!(r.writes, vec![(Register::Seed, 0xFFFF)]);
}

#[test]
fn blank_seed_ends_without_writes() {
    let r = run(b"\n", 3, &[b"<\n"], None);
    assert!(r.writes.is_empty());
    assert_eq!(r.arms_at_input, 0);
    assert_eq!(r.records_pulled, 0);
    assert_eq!(r.code, CODE);
}

#[test]
fn malformed_seed_ends_without_writes() {
    let r = run(b"zz\n", 0, &[b"<\n"], None);
    assert!(r.writes.is_empty());
    assert_eq!(r.code, CODE);
}

#[test]
fn warmup_hits_pull_no_record() {
    let r = run(b"1\n", 5, &[b"\n"], None);
    assert_eq!(r.hits_at_input, 6);
    assert_eq!(r.records_pulled, 1);
    assert_eq!(r.writes, vec![(Register::Seed, 1)]);
}

#[test]
fn blank_frame_ends_without_arming_again() {
    let r = run(b"1\n", 0, &[b"r\n", b"\n", b"l\n"], None);
    assert_eq!(r.writes, vec![(Register::Seed, 1), (Register::Input, 0x20)]);
    assert_eq!(r.hits_at_input, 2);
    assert_eq!(r.arms_at_input, 2);
    assert_eq!(r.code, CODE);
}

#[test]
fn failure_while_armed_restores_code_then_detaches() {
    // Code writes: the trap at the seed site, its restore, the trap at the input
    // site, then its restore, which fails here.
    let r = run(b"1\n", 0, &[b"<\n"], Some(4));
    assert_eq!(r.last, Action::Detach);
    assert_eq!(r.code, CODE);
}

#[test]
fn failure_when_not_armed_detaches_at_once() {
    let mut d = Driver::new(SEED_SITE, INPUT_SITE, 0);
    assert_eq!(d.start(), Action::ReadCode { address: SEED_SITE });
    assert_eq!(d.next(Event::Failed), Action::Detach);
    assert!(d.is_finished());
}

#[test]
fn failure_after_trap_written_takes_it_out() {
    let mut d = Driver::new(SEED_SITE, INPUT_SITE, 0);
    assert_eq!(
        d.next(Event::CodeRead { word: 0x1234 }),
        Action::WriteCode { address: SEED_SITE, word: 0x12CC }
    );
    assert_eq!(d.next(Event::Done), Action::Resume { signal: None });
    assert_eq!(d.next(Event::Failed), Action::WriteCode { address: SEED_SITE, word: 0x1234 });
    assert_eq!(d.phase, Phase::CleaningUp);
    assert_eq!(d.next(Event::Failed), Action::Detach);
    assert!(d.is_finished());
}

#[test]
fn exit_while_waiting_detaches_without_writes() {
    let mut d = Driver::new(SEED_SITE, INPUT_SITE, 0);
    d.next(Event::CodeRead { word: 0x1234 });
    d.next(Event::Done);
    assert_eq!(d.next(Event::Stopped { stop: Stop::Exited }), Action::Detach);
    assert!(d.is_finished());
}

#[test]
fn other_signals_are_passed_on() {
    let mut d = Driver::new(SEED_SITE, INPUT_SITE, 0);
    d.next(Event::CodeRead { word: 0x1234 });
    d.next(Event::Done);
    assert_eq!(
        d.next(Event::Stopped { stop: Stop::Signal { signal: 14 } }),
        Action::Resume { signal: Some(14) }
    );
    assert_eq!(d.next(Event::Stopped { stop: Stop::Unrecognized }), Action::Wait);
    assert_eq!(
        d.next(Event::Stopped { stop: Stop::Trap }),
        Action::WriteCode { address: SEED_SITE, word: 0x1234 }
    );
    assert_eq!(d.next(Event::Done), Action::SetPosition { address: SEED_SITE });
    assert_eq!(d.next(Event::Done), Action::ReadSeed);
    assert_eq!(
        d.next(Event::Seed { record: Ok(Some(0x1_2345)) }),
        Action::SetRegister { register: Register::Seed, value: 0x2345 }
    );
    assert_eq!(d.next(Event::Done), Action::Step { signal: None });
    assert_eq!(
        d.next(Event::Stopped { stop: Stop::Signal { signal: 10 } }),
        Action::Step { signal: Some(10) }
    );
    assert_eq!(
        d.next(Event::Stopped { stop: Stop::SingleStep }),
        Action::ReadCode { address: INPUT_SITE }
    );
}

#[test]
fn frame_with_zero_repeat_ends_the_session() {
    let mut d = Driver::new(SEED_SITE, INPUT_SITE, 0);
    d.phase = Phase::ReadingFrame;
    let f = InputFrame { mask: 1, repeat: 0 };
    assert_eq!(d.next(Event::Frame { record: Ok(Some(f)) }), Action::Detach);
    let mut d = Driver::new(SEED_SITE, INPUT_SITE, 0);
    d.phase = Phase::ReadingFrame;
    assert_eq!(d.next(Event::Frame { record: Err(RecordError::Malformed) }), Action::Detach);
}

#[test]
fn counters_poll_and_accept() {
    let mut c = Counters { skip: 2, mask: 0, repeat: 0 };
    assert_eq!(c.poll(), Poll::Skip);
    assert_eq!(c.poll(), Poll::Skip);
    assert_eq!(c.poll(), Poll::Fetch);
    assert_eq!(c.accept(InputFrame { mask: 0x08, repeat: 2 }), Poll::Inject { mask: 0x08 });
    assert_eq!(c.poll(), Poll::Inject { mask: 0x08 });
    assert_eq!(c.poll(), Poll::Fetch);
    assert_eq!(c, Counters { skip: 0, mask: 0x08, repeat: 0 });
}

#[test]
fn foreign_breakpoints_and_steps_are_passed_on() {
    let mut d = Driver::new(SEED_SITE, INPUT_SITE, 0);
    d.next(Event::CodeRead { word: 0x1234 });
    d.next(Event::Done);
    assert_eq!(
        d.next(Event::Stopped { stop: Stop::Breakpoint { address: SEED_SITE + 1 } }),
        Action::Resume { signal: Some(BREAKPOINT_EXCEPTION) }
    );
    assert_eq!(
        d.next(Event::Stopped { stop: Stop::SingleStep }),
        Action::Resume { signal: Some(SINGLE_STEP_EXCEPTION) }
    );
    assert_eq!(d.phase, Phase::Running);
    assert_eq!(
        d.next(Event::Stopped { stop: Stop::Breakpoint { address: SEED_SITE } }),
        Action::WriteCode { address: SEED_SITE, word: 0x1234 }
    );
    d.next(Event::Done);
    d.next(Event::Done);
    d.next(Event::Seed { record: Ok(Some(1)) });
    assert_eq!(d.next(Event::Done), Action::Step { signal: None });
    assert_eq!(
        d.next(Event::Stopped { stop: Stop::Breakpoint { address: INPUT_SITE } }),
        Action::Step { signal: Some(BREAKPOINT_EXCEPTION) }
    );
    assert_eq!(d.phase, Phase::Stepping);
}
