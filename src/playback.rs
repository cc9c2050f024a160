//! The playback driver: a state machine that turns what the target and the
//! record source report into the next thing to do to the target.
//!
//! The driver never touches the target itself. Whoever runs it performs each
//! [`Action`] and hands the outcome back as an [`Event`].
use vstd::prelude::*;
use crate::breakpoint::{Breakpoint, Expect, Reaction, Stop, patched, reaction, react};
use crate::records::{InputFrame, RecordError};

verus! {

/// Width of the seed that the target reads: its seed register keeps the lower 16 bits.
pub const SEED_MASK: u64 = 0xFFFF;

/// The two registers that the driver writes.
#[derive(Clone, Copy, Debug, PartialEq, Eq)]
pub enum Register {
    /// Where the seed is read at the seed site (rax).
    Seed,
    /// Where the input bitmask is read at the input site (rbx).
    Input,
}

/// The two code locations that carry a breakpoint.
#[derive(Clone, Copy, Debug, PartialEq, Eq)]
pub enum Site {
    Seed,
    Input,
}

/// What the driver waits for.
#[derive(Clone, Copy, Debug, PartialEq, Eq)]
pub enum Phase {
    /// The code word at the breakpoint address is being read.
    ReadingCode,
    /// The trap is being written.
    WritingTrap,
    /// The target runs toward the breakpoint.
    Running,
    /// The saved code word is being written back.
    Restoring,
    /// The instruction pointer is being moved back onto the breakpoint address.
    Positioning,
    ReadingSeed,
    WritingSeed,
    ReadingFrame,
    WritingInput,
    /// The target executes one instruction.
    Stepping,
    /// After a failure, the trap is being taken out before the target is let go.
    CleaningUp,
    /// The target has been let go; nothing is left to do.
    Detached,
}

/// What the caller must do to the target or the record source next.
#[derive(Clone, Copy, Debug, PartialEq, Eq)]
pub enum Action {
    /// Read the code word at `address`; answer `CodeRead`.
    ReadCode { address: u64 },
    /// Write `word` at `address`; answer `Done`.
    WriteCode { address: u64, word: u64 },
    /// Resume the target; with `signal`, pass the last stop on to it (the signal
    /// to deliver, or the exception code to report as not handled); answer `Stopped`.
    Resume { signal: Option<i32> },
    /// Wait for the next stop without resuming; answer `Stopped`.
    Wait,
    /// Set the instruction pointer to `address`; answer `Done`.
    SetPosition { address: u64 },
    /// Pull the seed record; answer `Seed`.
    ReadSeed,
    /// Pull the next input record; answer `Frame`.
    ReadFrame,
    /// Write `value` into `register`, in one write of the register set; answer `Done`.
    SetRegister { register: Register, value: u64 },
    /// Execute one instruction; `signal` as for `Resume`; answer `Stopped`.
    Step { signal: Option<i32> },
    /// Let the target go. Nothing follows.
    Detach,
}

/// The outcome of the last action.
#[derive(Clone, Copy, Debug, PartialEq, Eq)]
pub enum Event {
    CodeRead { word: u64 },
    Done,
    Stopped { stop: Stop },
    Seed { record: Result<Option<u64>, RecordError> },
    Frame { record: Result<Option<InputFrame>, RecordError> },
    /// The last action could not be performed.
    Failed,
}

/// The counters of the input site: polls left to skip before input capture
/// begins, the mask being held, and how many more polls it is held for.
#[derive(Clone, Copy, Debug, PartialEq, Eq)]
pub struct Counters {
    pub skip: u64,
    pub mask: u8,
    pub repeat: u64,
}

/// What one poll of the input site calls for.
#[derive(Clone, Copy, Debug, PartialEq, Eq)]
pub enum Poll {
    /// A warm-up poll: no record, no write.
    Skip,
    /// The held mask is used up: the next record is needed.
    Fetch,
    /// Write this mask.
    Inject { mask: u8 },
}

/// One poll of the input site, before any record is consulted.
pub open spec fn poll_spec(c: Counters) -> (Counters, Poll) {
    if c.skip > 0 {
        (Counters { skip: (c.skip - 1) as u64, ..c }, Poll::Skip)
    } else if c.repeat == 0 {
        (c, Poll::Fetch)
    } else {
        (Counters { repeat: (c.repeat - 1) as u64, ..c }, Poll::Inject { mask: c.mask })
    }
}

/// The poll that fetched `f`: its mask is written, and held for `f.repeat - 1` more polls.
pub open spec fn accept_spec(c: Counters, f: InputFrame) -> (Counters, Poll)
    recommends
        f.repeat > 0,
{
    (Counters { mask: f.mask, repeat: (f.repeat - 1) as u64, ..c }, Poll::Inject { mask: f.mask })
}

/// The counters after `k` polls of the input site that consult no record.
pub open spec fn polls(c: Counters, k: nat) -> Counters
    decreases k,
{
    if k == 0 {
        c
    } else {
        poll_spec(polls(c, (k - 1) as nat)).0
    }
}

impl Counters {
    pub fn poll(&mut self) -> (r: Poll)
        ensures
            (*final(self), r) == poll_spec(*old(self)),
    {
        if self.skip > 0 {
            self.skip = self.skip - 1;
            Poll::Skip
        } else if self.repeat == 0 {
            Poll::Fetch
        } else {
            self.repeat = self.repeat - 1;
            Poll::Inject { mask: self.mask }
        }
    }

    pub fn accept(&mut self, f: InputFrame) -> (r: Poll)
        requires
            f.repeat > 0,
        ensures
            (*final(self), r) == accept_spec(*old(self), f),
    {
        self.mask = f.mask;
        self.repeat = f.repeat - 1;
        Poll::Inject { mask: f.mask }
    }
}

/// During a warm-up of `n` polls, exactly the first `n` polls of the input
/// site pass without a record; the one after them is the first to ask for one.
pub proof fn lemma_warmup(c: Counters, n: nat)
    requires
        c.skip == n,
        c.repeat == 0,
    ensures
        forall|k: nat| k < n ==> #[trigger] poll_spec(polls(c, k)).1 == Poll::Skip,
        poll_spec(polls(c, n)).1 == Poll::Fetch,
{
    assert forall|k: nat| k <= n implies #[trigger] polls(c, k) == (Counters {
        skip: (n - k) as u64,
        ..c
    }) by {
        lemma_polls_skipping(c, n, k);
    }
    assert(polls(c, n) == (Counters { skip: 0, ..c }));
}

proof fn lemma_polls_skipping(c: Counters, n: nat, k: nat)
    requires
        c.skip == n,
        k <= n,
    ensures
        polls(c, k) == (Counters { skip: (n - k) as u64, ..c }),
    decreases k,
{
    if k > 0 {
        lemma_polls_skipping(c, n, (k - 1) as nat);
    }
}

/// A record with a repeat count of `r` has its mask written on `r` consecutive
/// polls: the poll that fetched it and the `r - 1` after it, none of which asks
/// for a record; the poll after those asks for the next one.
pub proof fn lemma_repeat(c: Counters, f: InputFrame)
    requires
        c.skip == 0,
        f.repeat > 0,
    ensures
        accept_spec(c, f).1 == (Poll::Inject { mask: f.mask }),
        forall|k: nat|
            k < f.repeat - 1 ==> #[trigger] poll_spec(polls(accept_spec(c, f).0, k)).1 == (
            Poll::Inject { mask: f.mask }),
        poll_spec(polls(accept_spec(c, f).0, (f.repeat - 1) as nat)).1 == Poll::Fetch,
{
    let c1 = accept_spec(c, f).0;
    let m = (f.repeat - 1) as nat;
    assert forall|k: nat| k <= m implies #[trigger] polls(c1, k) == (Counters {
        repeat: (m - k) as u64,
        ..c1
    }) by {
        lemma_polls_holding(c1, m, k);
    }
    assert(polls(c1, m) == (Counters { repeat: 0, ..c1 }));
}

proof fn lemma_polls_holding(c: Counters, m: nat, k: nat)
    requires
        c.skip == 0,
        c.repeat == m,
        k <= m,
    ensures
        polls(c, k) == (Counters { repeat: (m - k) as u64, ..c }),
    decreases k,
{
    if k > 0 {
        lemma_polls_holding(c, m, (k - 1) as nat);
    }
}

/// The playback session: where the breakpoints go, what the driver waits for,
/// the breakpoint in use, and the input counters.
#[derive(Clone, Copy)]
pub struct Driver {
    pub seed_site: u64,
    pub input_site: u64,
    pub phase: Phase,
    pub site: Site,
    pub breakpoint: Breakpoint,
    pub counters: Counters,
    /// Register writes asked for so far.
    pub writes: Ghost<nat>,
}

impl Driver {
    pub open spec fn site_address(self) -> u64 {
        match self.site {
            Site::Seed => self.seed_site,
            Site::Input => self.input_site,
        }
    }

    /// The trap is in place only while the target runs toward it, while it is
    /// being taken out, and while a failure is cleaned up (or after the target
    /// has gone), and it sits at the address of the site in hand; no register
    /// is written before the seed is asked for; and the seed and input phases
    /// belong to their own sites.
    pub open spec fn wf(self) -> bool {
        &&& self.breakpoint.armed ==> (self.phase == Phase::WritingTrap || self.phase
            == Phase::Running || self.phase == Phase::Restoring || self.phase
            == Phase::CleaningUp || self.phase == Phase::Detached)
        &&& self.breakpoint.armed ==> self.breakpoint.address == self.site_address()
        &&& (self.phase == Phase::WritingTrap || self.phase == Phase::Running || self.phase
            == Phase::Restoring) ==> self.breakpoint.armed
        &&& self.site == Site::Seed && self.before_seed() ==> self.writes@ == 0
        &&& (self.phase == Phase::ReadingSeed || self.phase == Phase::WritingSeed) ==> self.site
            == Site::Seed
        &&& (self.phase == Phase::ReadingFrame || self.phase == Phase::WritingInput) ==> self.site
            == Site::Input
    }

    /// The phases in which the seed has not been asked for yet.
    pub open spec fn before_seed(self) -> bool {
        self.phase == Phase::ReadingCode || self.phase == Phase::WritingTrap || self.phase
            == Phase::Running || self.phase == Phase::Restoring || self.phase
            == Phase::Positioning || self.phase == Phase::ReadingSeed
    }

    pub open spec fn finished(self) -> bool {
        self.phase == Phase::Detached
    }

    /// The driver after letting the target go.
    pub open spec fn finish(self) -> (Driver, Action) {
        (Driver { phase: Phase::Detached, ..self }, Action::Detach)
    }

    /// The driver after the last action failed: an armed trap is taken out
    /// first, then the target is let go.
    pub open spec fn fail(self) -> (Driver, Action) {
        if self.breakpoint.armed {
            (
                Driver { phase: Phase::CleaningUp, ..self },
                Action::WriteCode { address: self.breakpoint.address, word: self.breakpoint.saved },
            )
        } else {
            self.finish()
        }
    }

    /// The driver that goes on to the breakpoint at `site`.
    pub open spec fn go_to(self, site: Site) -> (Driver, Action) {
        let d = Driver { phase: Phase::ReadingCode, site, ..self };
        (d, Action::ReadCode { address: d.site_address() })
    }

    /// The driver after a poll of the input site called for `p`.
    pub open spec fn after_poll(self, c: Counters, p: Poll) -> (Driver, Action) {
        match p {
            Poll::Skip => (
                Driver { phase: Phase::Stepping, counters: c, ..self },
                Action::Step { signal: None },
            ),
            Poll::Fetch => (Driver { phase: Phase::ReadingFrame, counters: c, ..self }, Action::ReadFrame),
            Poll::Inject { mask } => (
                Driver {
                    phase: Phase::WritingInput,
                    counters: c,
                    writes: Ghost((self.writes@ + 1) as nat),
                    ..self
                },
                Action::SetRegister { register: Register::Input, value: mask as u64 },
            ),
        }
    }

    /// The driver at the moment the breakpoint at the site in hand is passed.
    pub open spec fn at_site(self) -> (Driver, Action) {
        match self.site {
            Site::Seed => (Driver { phase: Phase::ReadingSeed, ..self }, Action::ReadSeed),
            Site::Input => self.after_poll(poll_spec(self.counters).0, poll_spec(self.counters).1),
        }
    }

    /// The whole transition: the next driver and the next action after `e`.
    pub open spec fn next_spec(self, e: Event) -> (Driver, Action) {
        match (self.phase, e) {
            (Phase::ReadingCode, Event::CodeRead { word }) => (
                Driver {
                    phase: Phase::WritingTrap,
                    breakpoint: Breakpoint { address: self.site_address(), saved: word, armed: true },
                    ..self
                },
                Action::WriteCode { address: self.site_address(), word: patched(word) },
            ),
            (Phase::WritingTrap, Event::Done) => (
                Driver { phase: Phase::Running, ..self },
                Action::Resume { signal: None },
            ),
            (Phase::Running, Event::Stopped { stop }) => match reaction(
                Expect::Breakpoint { address: self.breakpoint.address },
                stop,
            ) {
                Reaction::Arrived => (
                    Driver { phase: Phase::Restoring, ..self },
                    Action::WriteCode {
                        address: self.breakpoint.address,
                        word: self.breakpoint.saved,
                    },
                ),
                Reaction::Forward { signal } => (self, Action::Resume { signal: Some(signal) }),
                Reaction::Wait => (self, Action::Wait),
                Reaction::Terminated => self.finish(),
            },
            (Phase::Restoring, Event::Done) => (
                Driver {
                    phase: Phase::Positioning,
                    breakpoint: Breakpoint { armed: false, ..self.breakpoint },
                    ..self
                },
                Action::SetPosition { address: self.breakpoint.address },
            ),
            (Phase::Positioning, Event::Done) => self.at_site(),
            (Phase::ReadingSeed, Event::Seed { record: Ok(Some(v)) }) => (
                Driver { phase: Phase::WritingSeed, writes: Ghost((self.writes@ + 1) as nat), ..self },
                Action::SetRegister { register: Register::Seed, value: v & SEED_MASK },
            ),
            (Phase::ReadingSeed, Event::Seed { .. }) => self.finish(),
            (Phase::WritingSeed, Event::Done) => (
                Driver { phase: Phase::Stepping, ..self },
                Action::Step { signal: None },
            ),
            (Phase::ReadingFrame, Event::Frame { record: Ok(Some(f)) }) => if f.repeat > 0 {
                self.after_poll(accept_spec(self.counters, f).0, accept_spec(self.counters, f).1)
            } else {
                self.finish()
            },
            (Phase::ReadingFrame, Event::Frame { .. }) => self.finish(),
            (Phase::WritingInput, Event::Done) => (
                Driver { phase: Phase::Stepping, ..self },
                Action::Step { signal: None },
            ),
            (Phase::Stepping, Event::Stopped { stop }) => match reaction(Expect::Step, stop) {
                Reaction::Arrived => self.go_to(Site::Input),
                Reaction::Forward { signal } => (self, Action::Step { signal: Some(signal) }),
                Reaction::Wait => (self, Action::Wait),
                Reaction::Terminated => self.finish(),
            },
            (Phase::CleaningUp, Event::Done) => (
                Driver {
                    phase: Phase::Detached,
                    breakpoint: Breakpoint { armed: false, ..self.breakpoint },
                    ..self
                },
                Action::Detach,
            ),
            (Phase::CleaningUp, _) => self.finish(),
            _ => self.fail(),
        }
    }
    /// A session that will arm the seed site first, then skip `skip` polls of the input site.
    pub fn new(seed_site: u64, input_site: u64, skip: u64) -> (r: Driver)
        ensures
            r.wf(),
            r.seed_site == seed_site,
            r.input_site == input_site,
            r.phase == Phase::ReadingCode,
            r.site == Site::Seed,
            !r.breakpoint.armed,
            r.counters == (Counters { skip, mask: 0, repeat: 0 }),
            r.writes@ == 0,
    {
        Driver {
            seed_site,
            input_site,
            phase: Phase::ReadingCode,
            site: Site::Seed,
            breakpoint: Breakpoint::idle(seed_site),
            counters: Counters { skip, mask: 0, repeat: 0 },
            writes: Ghost(0),
        }
    }

    /// The first action of a new session.
    pub fn start(&self) -> (r: Action)
        ensures
            r == (Action::ReadCode { address: self.site_address() }),
    {
        Action::ReadCode { address: self.address() }
    }

    fn address(&self) -> (r: u64)
        ensures
            r == self.site_address(),
    {
        match self.site {
            Site::Seed => self.seed_site,
            Site::Input => self.input_site,
        }
    }

    pub fn is_finished(&self) -> (r: bool)
        ensures
            r == self.finished(),
    {
        match self.phase {
            Phase::Detached => true,
            _ => false,
        }
    }

    fn do_finish(&mut self) -> (r: Action)
        ensures
            (*final(self), r) == old(self).finish(),
    {
        self.phase = Phase::Detached;
        Action::Detach
    }

    fn do_fail(&mut self) -> (r: Action)
        ensures
            (*final(self), r) == old(self).fail(),
    {
        if self.breakpoint.armed {
            self.phase = Phase::CleaningUp;
            Action::WriteCode { address: self.breakpoint.address, word: self.breakpoint.saved }
        } else {
            self.do_finish()
        }
    }

    fn do_after_poll(&mut self, c: Counters, p: Poll) -> (r: Action)
        ensures
            (*final(self), r) == old(self).after_poll(c, p),
    {
        self.counters = c;
        match p {
            Poll::Skip => {
                self.phase = Phase::Stepping;
                Action::Step { signal: None }
            },
            Poll::Fetch => {
                self.phase = Phase::ReadingFrame;
                Action::ReadFrame
            },
            Poll::Inject { mask } => {
                self.phase = Phase::WritingInput;
                self.writes = Ghost((self.writes@ + 1) as nat);
                Action::SetRegister { register: Register::Input, value: mask as u64 }
            },
        }
    }

    /// Takes the outcome of the last action and says what to do next.
    pub fn next(&mut self, e: Event) -> (r: Action)
        requires
            !old(self).finished(),
        ensures
            (*final(self), r) == old(self).next_spec(e),
            old(self).wf() ==> final(self).wf(),
    {
        match (self.phase, e) {
            (Phase::ReadingCode, Event::CodeRead { word }) => {
                let address = self.address();
                let (bp, trap) = Breakpoint::arm(address, word);
                self.breakpoint = bp;
                self.phase = Phase::WritingTrap;
                Action::WriteCode { address, word: trap }
            },
            (Phase::WritingTrap, Event::Done) => {
                self.phase = Phase::Running;
                Action::Resume { signal: None }
            },
            (Phase::Running, Event::Stopped { stop }) => {
                match react(Expect::Breakpoint { address: self.breakpoint.address }, stop) {
                    Reaction::Arrived => {
                        self.phase = Phase::Restoring;
                        Action::WriteCode {
                            address: self.breakpoint.address,
                            word: self.breakpoint.saved,
                        }
                    },
                    Reaction::Forward { signal } => Action::Resume { signal: Some(signal) },
                    Reaction::Wait => Action::Wait,
                    Reaction::Terminated => self.do_finish(),
                }
            },
            (Phase::Restoring, Event::Done) => {
                let _ = self.breakpoint.disarm();
                self.phase = Phase::Positioning;
                Action::SetPosition { address: self.breakpoint.address }
            },
            (Phase::Positioning, Event::Done) => match self.site {
                Site::Seed => {
                    self.phase = Phase::ReadingSeed;
                    Action::ReadSeed
                },
                Site::Input => {
                    let mut c = self.counters;
                    let p = c.poll();
                    self.do_after_poll(c, p)
                },
            },
            (Phase::ReadingSeed, Event::Seed { record: Ok(Some(v)) }) => {
                self.phase = Phase::WritingSeed;
                self.writes = Ghost((self.writes@ + 1) as nat);
                Action::SetRegister { register: Register::Seed, value: v & SEED_MASK }
            },
            (Phase::ReadingSeed, Event::Seed { .. }) => self.do_finish(),
            (Phase::WritingSeed, Event::Done) => {
                self.phase = Phase::Stepping;
                Action::Step { signal: None }
            },
            (Phase::ReadingFrame, Event::Frame { record: Ok(Some(f)) }) => {
                if f.repeat > 0 {
                    let mut c = self.counters;
                    let p = c.accept(f);
                    self.do_after_poll(c, p)
                } else {
                    self.do_finish()
                }
            },
            (Phase::ReadingFrame, Event::Frame { .. }) => self.do_finish(),
            (Phase::WritingInput, Event::Done) => {
                self.phase = Phase::Stepping;
                Action::Step { signal: None }
            },
            (Phase::Stepping, Event::Stopped { stop }) => match react(Expect::Step, stop) {
                Reaction::Arrived => {
                    self.phase = Phase::ReadingCode;
                    self.site = Site::Input;
                    Action::ReadCode { address: self.input_site }
                },
                Reaction::Forward { signal } => Action::Step { signal: Some(signal) },
                Reaction::Wait => Action::Wait,
                Reaction::Terminated => self.do_finish(),
            },
            (Phase::CleaningUp, Event::Done) => {
                let _ = self.breakpoint.disarm();
                self.phase = Phase::Detached;
                Action::Detach
            },
            (Phase::CleaningUp, _) => self.do_finish(),
            _ => self.do_fail(),
        }
    }
}

/// A blank or unreadable seed record ends the session at once: the target is
/// let go with the trap out and no register written.
pub proof fn lemma_blank_seed(d: Driver, record: Result<Option<u64>, RecordError>)
    requires
        d.wf(),
        d.phase == Phase::ReadingSeed,
        !(record matches Ok(Some(_))),
    ensures
        d.next_spec(Event::Seed { record }).1 == Action::Detach,
        d.next_spec(Event::Seed { record }).0.finished(),
        !d.next_spec(Event::Seed { record }).0.breakpoint.armed,
        d.next_spec(Event::Seed { record }).0.writes@ == 0,
{
}

/// A blank or unreadable input record ends the session at the poll that asked
/// for it: the target is let go with the trap out, and no breakpoint is armed again.
pub proof fn lemma_blank_frame(d: Driver, record: Result<Option<InputFrame>, RecordError>)
    requires
        d.wf(),
        d.phase == Phase::ReadingFrame,
        !(record matches Ok(Some(_))),
    ensures
        d.next_spec(Event::Frame { record }).1 == Action::Detach,
        d.next_spec(Event::Frame { record }).0.finished(),
        !d.next_spec(Event::Frame { record }).0.breakpoint.armed,
{
}

/// Every way a session ends lets the target go, and only with the trap taken
/// out: the trap can be left only where the target has exited, or where the
/// write that takes it out after a failure failed too. A failure while the
/// trap is in place first writes the saved code word back, and whatever comes
/// of that write, the target is let go next.
pub proof fn lemma_every_end_is_clean(d: Driver, e: Event)
    requires
        d.wf(),
        !d.finished(),
    ensures
        d.next_spec(e).0.finished() <==> d.next_spec(e).1 == Action::Detach,
        d.next_spec(e).1 == Action::Detach ==> (!d.next_spec(e).0.breakpoint.armed || e == (
        Event::Stopped { stop: Stop::Exited }) || d.phase == Phase::CleaningUp),
        e == Event::Failed && d.breakpoint.armed && d.phase != Phase::CleaningUp ==> ({
            let (d1, a) = d.next_spec(e);
            &&& a == (Action::WriteCode {
                address: d.breakpoint.address,
                word: d.breakpoint.saved,
            })
            &&& d1.phase == Phase::CleaningUp
            &&& forall|e2: Event| #[trigger] d1.next_spec(e2).1 == Action::Detach
        }),
{
    if d.phase == Phase::Running || d.phase == Phase::Stepping {
        if let Event::Stopped { stop } = e {
            if d.next_spec(e).1 == Action::Detach {
                assert(stop == Stop::Exited);
            }
        }
    }
}

/// Each hit of the input site, once the trap is out and the position is fixed,
/// is one poll of the counters: a record is pulled exactly when the poll asks
/// for one, and otherwise the counters move on as the poll says.
pub proof fn lemma_hit_is_one_poll(d: Driver)
    requires
        d.wf(),
        d.phase == Phase::Positioning,
        d.site == Site::Input,
    ensures
        (d.next_spec(Event::Done).1 == Action::ReadFrame) <==> (poll_spec(d.counters).1
            == Poll::Fetch),
        d.next_spec(Event::Done).0.counters == poll_spec(d.counters).0,
        poll_spec(d.counters).1 == Poll::Skip ==> d.next_spec(Event::Done).1 == (Action::Step {
            signal: None,
        }),
        forall|m: u8|
            poll_spec(d.counters).1 == (Poll::Inject { mask: m }) ==> #[trigger] d.next_spec(
                Event::Done,
            ).1 == (Action::SetRegister { register: Register::Input, value: m as u64 }),
{
}

} // verus!
