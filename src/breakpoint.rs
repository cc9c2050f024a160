//! Software breakpoints over code words, and the reading of the stops that a
//! suspended target reports.
use vstd::prelude::*;

verus! {

/// The one-byte trap instruction written over the patched code byte.
pub const TRAP: u64 = 0xCC;

/// The code word with its lowest byte (the byte at the breakpoint address) replaced by the trap.
pub open spec fn patched(word: u64) -> u64 {
    (word & !0xFFu64) | TRAP
}

/// The byte of `word` that lies at the word's own address.
pub open spec fn low_byte(word: u64) -> u8 {
    (word & 0xFF) as u8
}

/// A software breakpoint: where it is, the code word that was there before
/// the trap was written, and whether the trap is in place.
#[derive(Clone, Copy, Debug, PartialEq, Eq)]
pub struct Breakpoint {
    pub address: u64,
    pub saved: u64,
    pub armed: bool,
}

/// The breakpoint armed at `address` over the code word `word` read there,
/// and the word to write in its place.
pub open spec fn arm_spec(address: u64, word: u64) -> (Breakpoint, u64) {
    (Breakpoint { address, saved: word, armed: true }, patched(word))
}

/// The breakpoint once disarmed, and the word to write back.
pub open spec fn disarm_spec(bp: Breakpoint) -> (Breakpoint, u64) {
    (Breakpoint { armed: false, ..bp }, bp.saved)
}

impl Breakpoint {
    /// A breakpoint that is not armed anywhere.
    pub fn idle(address: u64) -> (r: Breakpoint)
        ensures
            r == (Breakpoint { address, saved: 0, armed: false }),
    {
        Breakpoint { address, saved: 0, armed: false }
    }

    /// Arms at `address`, over the code word `word` read there. Returns the
    /// breakpoint and the word to write back in its place.
    pub fn arm(address: u64, word: u64) -> (r: (Breakpoint, u64))
        ensures
            r == arm_spec(address, word),
    {
        (Breakpoint { address, saved: word, armed: true }, (word & !0xFFu64) | TRAP)
    }

    /// Disarms: returns the word to write back, which is exactly the one that was saved.
    pub fn disarm(&mut self) -> (r: u64)
        ensures
            (*final(self), r) == disarm_spec(*old(self)),
    {
        self.armed = false;
        self.saved
    }
}

/// Arming writes the trap into the addressed byte and leaves the seven other
/// bytes of the word alone; disarming the breakpoint that arming made then
/// hands back the very word that was read, so the byte that was there comes
/// back, whatever its value, and the breakpoint is no longer armed.
pub proof fn lemma_arm_disarm_round_trip(address: u64, word: u64, b: u8)
    requires
        low_byte(word) == b,
    ensures
        low_byte(arm_spec(address, word).1) == TRAP,
        arm_spec(address, word).1 >> 8u64 == word >> 8u64,
        disarm_spec(arm_spec(address, word).0).1 == word,
        low_byte(disarm_spec(arm_spec(address, word).0).1) == b,
        !disarm_spec(arm_spec(address, word).0).0.armed,
{
    assert(((word & !0xFFu64) | 0xCCu64) & 0xFFu64 == 0xCCu64) by (bit_vector);
    assert(((word & !0xFFu64) | 0xCCu64) >> 8u64 == word >> 8u64) by (bit_vector);
}

/// What the operating system reported when the target stopped.
#[derive(Clone, Copy, Debug, PartialEq, Eq)]
pub enum Stop {
    /// A trap, which may be a breakpoint or a finished single step.
    Trap,
    /// A breakpoint exception at the given address.
    Breakpoint { address: u64 },
    /// A finished single step.
    SingleStep,
    /// Any other signal, or any other exception by its code, to be passed on to the target.
    Signal { signal: i32 },
    /// The target terminated.
    Exited,
    /// A stop that carries nothing to act on.
    Unrecognized,
}

/// What the controller waits for after resuming the target.
#[derive(Clone, Copy, Debug, PartialEq, Eq)]
pub enum Expect {
    Breakpoint { address: u64 },
    Step,
}

/// The code of a breakpoint exception (`0x80000003`), as passed on when the
/// breakpoint is not the one waited for.
pub const BREAKPOINT_EXCEPTION: i32 = -2147483645;

/// The code of a single-step exception (`0x80000004`), as passed on when no
/// single step is waited for.
pub const SINGLE_STEP_EXCEPTION: i32 = -2147483644;

/// How the controller answers a stop.
#[derive(Clone, Copy, Debug, PartialEq, Eq)]
pub enum Reaction {
    /// The expected stop came.
    Arrived,
    /// Resume the target again and pass the stop on to it unchanged: the
    /// signal to deliver, or the code of the exception to report as not handled.
    Forward { signal: i32 },
    /// Keep waiting without resuming.
    Wait,
    /// The target is gone.
    Terminated,
}

pub open spec fn reaction(expect: Expect, stop: Stop) -> Reaction {
    match stop {
        Stop::Trap => Reaction::Arrived,
        Stop::Breakpoint { address } => match expect {
            Expect::Breakpoint { address: a } => if a == address {
                Reaction::Arrived
            } else {
                Reaction::Forward { signal: BREAKPOINT_EXCEPTION }
            },
            Expect::Step => Reaction::Forward { signal: BREAKPOINT_EXCEPTION },
        },
        Stop::SingleStep => match expect {
            Expect::Step => Reaction::Arrived,
            Expect::Breakpoint { .. } => Reaction::Forward { signal: SINGLE_STEP_EXCEPTION },
        },
        Stop::Signal { signal } => Reaction::Forward { signal },
        Stop::Exited => Reaction::Terminated,
        Stop::Unrecognized => Reaction::Wait,
    }
}

/// Sorts a stop into the expected one, one to pass on, one to wait past, and
/// the end of the target.
pub fn react(expect: Expect, stop: Stop) -> (r: Reaction)
    ensures
        r == reaction(expect, stop),
{
    match stop {
        Stop::Trap => Reaction::Arrived,
        Stop::Breakpoint { address } => match expect {
            Expect::Breakpoint { address: a } => if a == address {
                Reaction::Arrived
            } else {
                Reaction::Forward { signal: BREAKPOINT_EXCEPTION }
            },
            Expect::Step => Reaction::Forward { signal: BREAKPOINT_EXCEPTION },
        },
        Stop::SingleStep => match expect {
            Expect::Step => Reaction::Arrived,
            Expect::Breakpoint { .. } => Reaction::Forward { signal: SINGLE_STEP_EXCEPTION },
        },
        Stop::Signal { signal } => Reaction::Forward { signal },
        Stop::Exited => Reaction::Terminated,
        Stop::Unrecognized => Reaction::Wait,
    }
}

} // verus!
