use ppt_tas::breakpoint::{
    react, Breakpoint, Expect, Reaction, Stop, BREAKPOINT_EXCEPTION, SINGLE_STEP_EXCEPTION, TRAP,
};

#[test]
fn arm_writes_trap_into_low_byte_only() {
    let (bp, word) = Breakpoint::arm(0x1000, 0x1122_3344_5566_7788);
    assert_eq!(word, 0x1122_3344_5566_77CC);
    assert_eq!(word & 0xFF, TRAP);
    assert!(bp.armed);
    assert_eq!(bp.address, 0x1000);
    assert_eq!(bp.saved, 0x1122_3344_5566_7788);
}

#[test]
fn arm_disarm_round_trips_every_byte() {
    for b in 0u64..=255 {
        let before = 0xDEAD_BEEF_0000_0000 | b;
        let (mut bp, patched) = Breakpoint::arm(0x2000, before);
        assert_eq!(patched, 0xDEAD_BEEF_0000_00CC);
        let restored = bp.disarm();
        assert_eq!(restored, before);
        assert_eq!(restored & 0xFF, b);
        assert!(!bp.armed);
    }
}

#[test]
fn idle_breakpoint_is_not_armed() {
    let bp = Breakpoint::idle(7);
    assert!(!bp.armed);
    assert_eq!(bp.address, 7);
}

#[test]
fn reactions_to_stops() {
    let at = Expect::Breakpoint { address: 0x40 };
    assert_eq!(react(at, Stop::Trap), Reaction::Arrived);
    assert_eq!(react(Expect::Step, Stop::Trap), Reaction::Arrived);
    assert_eq!(react(at, Stop::Breakpoint { address: 0x40 }), Reaction::Arrived);
    assert_eq!(
        react(at, Stop::Breakpoint { address: 0x41 }),
        Reaction::Forward { signal: BREAKPOINT_EXCEPTION }
    );
    assert_eq!(
        react(Expect::Step, Stop::Breakpoint { address: 0x40 }),
        Reaction::Forward { signal: BREAKPOINT_EXCEPTION }
    );
    assert_eq!(react(Expect::Step, Stop::SingleStep), Reaction::Arrived);
    assert_eq!(react(at, Stop::SingleStep), Reaction::Forward { signal: SINGLE_STEP_EXCEPTION });
    assert_eq!(react(at, Stop::Signal { signal: 11 }), Reaction::Forward { signal: 11 });
    assert_eq!(react(Expect::Step, Stop::Signal { signal: 2 }), Reaction::Forward { signal: 2 });
    assert_eq!(react(at, Stop::Exited), Reaction::Terminated);
    assert_eq!(react(at, Stop::Unrecognized), Reaction::Wait);
}

#[test]
fn exception_codes_are_the_windows_ones() {
    assert_eq!(BREAKPOINT_EXCEPTION as u32, 0x8000_0003);
    assert_eq!(SINGLE_STEP_EXCEPTION as u32, 0x8000_0004);
}
