//! The standard-output arbiter: notices the first byte that the host program
//! prints, and from then on passes the program's output through untouched.
//!
//! Standard output is pointed at a pipe. A watcher reads the pipe and writes
//! what it reads to the real standard output. The watcher's reads and writes
//! are the caller's work; [`StdoutArbiter`] decides what is read and written
//! next, raises the shared flag at the first byte, and keeps the bytes that a
//! short write has left over.

use crate::descriptors::stdout_fileno;
use crate::fdswap::{FdSwapState, FdSwapView, Redirect};
use crate::flag::SharedOutputFlag;
use vstd::prelude::*;

verus! {

/// How many bytes the first read asks for: the first byte alone tells that
/// the host has begun to print.
pub const FIRST_READ_LIMIT: usize = 1;

/// How many bytes a later read asks for at most.
pub const FORWARD_READ_LIMIT: usize = 32768;

/// The two descriptors of a pipe.
#[derive(Clone, Copy, PartialEq, Eq, Structural, Debug)]
pub struct PipeEnds {
    pub read: i32,
    pub write: i32,
}

/// What it takes to intercept standard output: duplicate the target of
/// `swap`, swap `replacement` in for it, then watch `watch`.
#[derive(Debug)]
pub struct Interception {
    /// The swap state of standard output, not swapped yet.
    pub swap: FdSwapState,
    /// The pipe's write end, which takes the place of standard output.
    pub replacement: i32,
    /// The pipe's read end, where the host's output arrives.
    pub watch: i32,
}

/// Plans the interception of standard output. `pipe` is what creating a pipe
/// gave, `None` where it failed: then nothing is intercepted and the flag
/// will never be raised.
pub fn start_stdout_detection(pipe: Option<PipeEnds>) -> (plan: Option<Interception>)
    ensures
        pipe is None ==> plan is None,
        pipe matches Some(ends) ==> (plan matches Some(interception) && interception.swap@
            == FdSwapView::idle(1) && interception.replacement == ends.write && interception.watch
            == ends.read),
{
    match pipe {
        None => None,
        Some(ends) => Some(
            Interception {
                swap: FdSwapState::new(stdout_fileno()),
                replacement: ends.write,
                watch: ends.read,
            },
        ),
    }
}

/// What follows the duplication of standard output.
#[derive(Clone, Copy, PartialEq, Eq, Structural, Debug)]
pub enum Engagement {
    /// Perform `redirect`, then start a watcher that reads `pipe` and writes
    /// to `real_stdout`.
    Watch { redirect: Redirect, pipe: i32, real_stdout: i32 },
    /// Standard output could not be duplicated and stays as it is: close both
    /// ends of the pipe, and start no watcher.
    Abandon { read: i32, write: i32 },
}

impl Interception {
    /// What [`Interception::engage`] answers where duplicating standard
    /// output returned `duplicate`.
    pub open spec fn engagement(self, duplicate: i32) -> Engagement {
        match self.swap@.swap_request(duplicate, self.replacement) {
            Some(redirect) => Engagement::Watch {
                redirect,
                pipe: self.watch,
                real_stdout: duplicate,
            },
            None => Engagement::Abandon { read: self.watch, write: self.replacement },
        }
    }

    /// Swaps the pipe in for standard output. `duplicate` is what duplicating
    /// standard output returned, negative where that failed. On a descriptor
    /// the swap saves it and the answer starts the watcher; on a failure
    /// nothing is swapped and the answer gives the pipe up.
    pub fn engage(&mut self, duplicate: i32) -> (engagement: Engagement)
        ensures
            engagement == old(self).engagement(duplicate),
            final(self).swap@ == old(self).swap@.swapped(duplicate),
            final(self).replacement == old(self).replacement,
            final(self).watch == old(self).watch,
    {
        match self.swap.swap(duplicate, self.replacement) {
            Some(redirect) => Engagement::Watch {
                redirect,
                pipe: self.watch,
                real_stdout: duplicate,
            },
            None => Engagement::Abandon { read: self.watch, write: self.replacement },
        }
    }
}

/// Where the watcher stands.
#[derive(Clone, Copy, PartialEq, Eq, Structural, Debug)]
pub enum ArbiterPhase {
    /// Nothing has come through the pipe yet.
    AwaitingFirstByte,
    /// The host prints, and its output is passed on.
    Forwarding,
    /// The pipe is closed or broken; the watcher has ended.
    Finished,
}

/// What happened to the watcher's last attempt.
#[derive(Clone, PartialEq, Eq, Debug)]
pub enum PipeEvent {
    /// A read of the pipe returned these bytes; none, where the pipe is closed.
    Read(Vec<u8>),
    /// A read of the pipe failed.
    ReadFailed,
    /// A write to the real standard output took this many of the bytes
    /// offered, counted from the first.
    Written(usize),
    /// A write to the real standard output failed.
    WriteFailed,
}

/// A [`PipeEvent`] as a mathematical value.
pub enum PipeEventView {
    Read(Seq<u8>),
    ReadFailed,
    Written(nat),
    WriteFailed,
}

impl View for PipeEvent {
    type V = PipeEventView;

    open spec fn view(&self) -> PipeEventView {
        match self {
            PipeEvent::Read(bytes) => PipeEventView::Read(bytes@),
            PipeEvent::ReadFailed => PipeEventView::ReadFailed,
            PipeEvent::Written(count) => PipeEventView::Written(*count as nat),
            PipeEvent::WriteFailed => PipeEventView::WriteFailed,
        }
    }
}

/// What the watcher is to do next.
#[derive(Clone, PartialEq, Eq, Debug)]
pub enum ArbiterAction {
    /// Read at most `limit` bytes from the pipe, waiting until some arrive.
    Read { limit: usize },
    /// Write these bytes to the real standard output.
    Write(Vec<u8>),
    /// End the thread.
    Exit,
}

/// An [`ArbiterAction`] as a mathematical value.
pub enum ArbiterActionView {
    Read { limit: usize },
    Write(Seq<u8>),
    Exit,
}

impl View for ArbiterAction {
    type V = ArbiterActionView;

    open spec fn view(&self) -> ArbiterActionView {
        match self {
            ArbiterAction::Read { limit } => ArbiterActionView::Read { limit: *limit },
            ArbiterAction::Write(bytes) => ArbiterActionView::Write(bytes@),
            ArbiterAction::Exit => ArbiterActionView::Exit,
        }
    }
}

/// The state of a watcher as a mathematical value.
pub struct ArbiterView {
    pub phase: ArbiterPhase,
    /// The bytes read from the pipe and not yet taken by a write.
    pub pending: Seq<u8>,
    /// All bytes read from the pipe so far, in order.
    pub received: Seq<u8>,
    /// All bytes that writes to the real standard output took so far, in order.
    pub delivered: Seq<u8>,
}

impl ArbiterView {
    /// A watcher that has seen nothing yet.
    pub open spec fn initial() -> ArbiterView {
        ArbiterView {
            phase: ArbiterPhase::AwaitingFirstByte,
            pending: Seq::empty(),
            received: Seq::empty(),
            delivered: Seq::empty(),
        }
    }

    /// What holds of every watcher: what was delivered, followed by what is
    /// pending, is what was received; before the first byte nothing was
    /// received, and while output is passed on something was.
    pub open spec fn well_formed(self) -> bool {
        &&& self.delivered + self.pending == self.received
        &&& self.phase == ArbiterPhase::AwaitingFirstByte ==> self.received.len() == 0
        &&& self.phase == ArbiterPhase::Forwarding ==> self.received.len() > 0
    }

    /// How many of the pending bytes a write that reports `count` has taken.
    pub open spec fn taken(self, count: nat) -> int {
        if count <= self.pending.len() {
            count as int
        } else {
            self.pending.len() as int
        }
    }

    /// The watcher with its phase set to finished.
    pub open spec fn finished(self) -> ArbiterView {
        ArbiterView { phase: ArbiterPhase::Finished, ..self }
    }

    /// The state after `event`.
    pub open spec fn step(self, event: PipeEventView) -> ArbiterView {
        if self.phase == ArbiterPhase::Finished {
            self
        } else {
            match event {
                PipeEventView::Read(bytes) => if bytes.len() == 0 {
                    self.finished()
                } else {
                    ArbiterView {
                        phase: ArbiterPhase::Forwarding,
                        pending: self.pending + bytes,
                        received: self.received + bytes,
                        delivered: self.delivered,
                    }
                },
                PipeEventView::Written(count) => if self.pending.len() > 0 && count == 0 {
                    self.finished()
                } else {
                    ArbiterView {
                        phase: self.phase,
                        pending: self.pending.skip(self.taken(count)),
                        received: self.received,
                        delivered: self.delivered + self.pending.take(self.taken(count)),
                    }
                },
                PipeEventView::ReadFailed => self.finished(),
                PipeEventView::WriteFailed => self.finished(),
            }
        }
    }

    /// What the watcher waits for in its state: the end, or a write of all
    /// that is pending, or where nothing is pending a read.
    pub open spec fn awaited(self) -> ArbiterActionView {
        if self.phase == ArbiterPhase::Finished {
            ArbiterActionView::Exit
        } else if self.pending.len() > 0 {
            ArbiterActionView::Write(self.pending)
        } else if self.phase == ArbiterPhase::AwaitingFirstByte {
            ArbiterActionView::Read { limit: FIRST_READ_LIMIT }
        } else {
            ArbiterActionView::Read { limit: FORWARD_READ_LIMIT }
        }
    }

    /// Whether `event` is the first byte: the moment at which the shared flag
    /// is raised.
    pub open spec fn sees_first_byte(self, event: PipeEventView) -> bool {
        &&& self.phase == ArbiterPhase::AwaitingFirstByte
        &&& event matches PipeEventView::Read(bytes) && bytes.len() > 0
    }
}

/// A vector with the bytes of `bytes` from index `from` on.
fn tail_of(bytes: &Vec<u8>, from: usize) -> (tail: Vec<u8>)
    requires
        from <= bytes.len(),
    ensures
        tail@ == bytes@.skip(from as int),
        from == 0 ==> tail@ == bytes@,
{
    let mut tail: Vec<u8> = Vec::new();
    let mut i: usize = from;
    while i < bytes.len()
        invariant
            from <= i <= bytes.len(),
            tail@ == bytes@.subrange(from as int, i as int),
        decreases bytes.len() - i,
    {
        tail.push(bytes[i]);
        assert(bytes@.subrange(from as int, i + 1) =~= bytes@.subrange(from as int, i as int).push(
            bytes@[i as int],
        ));
        i += 1;
    }
    assert(bytes@.subrange(from as int, bytes.len() as int) =~= bytes@.skip(from as int));
    assert(bytes@.skip(0) =~= bytes@);
    tail
}

/// A watcher of the pipe that stands in for standard output.
pub struct StdoutArbiter {
    phase: ArbiterPhase,
    pending: Vec<u8>,
    received: Ghost<Seq<u8>>,
    delivered: Ghost<Seq<u8>>,
}

impl View for StdoutArbiter {
    type V = ArbiterView;

    closed spec fn view(&self) -> ArbiterView {
        ArbiterView {
            phase: self.phase,
            pending: self.pending@,
            received: self.received@,
            delivered: self.delivered@,
        }
    }
}

impl StdoutArbiter {
    #[verifier::type_invariant]
    closed spec fn holds(&self) -> bool {
        self@.well_formed()
    }

    /// A watcher that has seen nothing yet.
    pub fn new() -> (arbiter: Self)
        ensures
            arbiter@ == ArbiterView::initial(),
            arbiter@.well_formed(),
    {
        StdoutArbiter {
            phase: ArbiterPhase::AwaitingFirstByte,
            pending: Vec::new(),
            received: Ghost(Seq::empty()),
            delivered: Ghost(Seq::empty()),
        }
    }

    /// Where the watcher stands.
    pub fn phase(&self) -> (phase: ArbiterPhase)
        ensures
            phase == self@.phase,
    {
        self.phase
    }

    /// The bytes read from the pipe and not yet taken by a write.
    pub fn pending(&self) -> (pending: &Vec<u8>)
        ensures
            pending@ == self@.pending,
            self@.well_formed(),
    {
        proof {
            use_type_invariant(self);
        }
        &self.pending
    }

    /// What the watcher waits for in its state: the caller's first action, and
    /// its next action after every event.
    pub fn awaited(&self) -> (action: ArbiterAction)
        ensures
            action@ == self@.awaited(),
    {
        match self.phase {
            ArbiterPhase::Finished => ArbiterAction::Exit,
            _ => {
                if self.pending.len() > 0 {
                    ArbiterAction::Write(tail_of(&self.pending, 0))
                } else if self.phase == ArbiterPhase::AwaitingFirstByte {
                    ArbiterAction::Read { limit: FIRST_READ_LIMIT }
                } else {
                    ArbiterAction::Read { limit: FORWARD_READ_LIMIT }
                }
            },
        }
    }

    /// Handles one event.
    ///
    /// Bytes read are queued behind those still pending and the first of them
    /// raises `flag`; a read without bytes, a failed read or write and a write
    /// that takes nothing of what is pending end the watcher; a write that
    /// took `count` bytes removes them from the front of the queue. The
    /// answer is what the new state waits for.
    pub fn step(&mut self, event: PipeEvent, flag: &mut SharedOutputFlag) -> (action:
        ArbiterAction)
        ensures
            final(self)@ == old(self)@.step(event@),
            final(self)@.well_formed(),
            action@ == final(self)@.awaited(),
            final(flag)@ == (old(flag)@ || old(self)@.sees_first_byte(event@)),
    {
        proof {
            use_type_invariant(&*self);
        }
        let ghost before = self@;
        if self.phase != ArbiterPhase::Finished {
            match event {
                PipeEvent::Read(bytes) => {
                    if bytes.len() == 0 {
                        self.phase = ArbiterPhase::Finished;
                    } else {
                        if self.phase == ArbiterPhase::AwaitingFirstByte {
                            flag.raise();
                        }
                        let ghost chunk = bytes@;
                        let mut pending = tail_of(&self.pending, 0);
                        let mut bytes = bytes;
                        pending.append(&mut bytes);
                        proof {
                            assert(before.delivered + (before.pending + chunk) =~= (
                            before.delivered + before.pending) + chunk);
                        }
                        *self = StdoutArbiter {
                            phase: ArbiterPhase::Forwarding,
                            pending,
                            received: Ghost(before.received + chunk),
                            delivered: self.delivered,
                        };
                    }
                },
                PipeEvent::Written(count) => {
                    if self.pending.len() > 0 && count == 0 {
                        self.phase = ArbiterPhase::Finished;
                    } else {
                        let taken = if count <= self.pending.len() {
                            count
                        } else {
                            self.pending.len()
                        };
                        let rest = tail_of(&self.pending, taken);
                        proof {
                            assert(before.pending.take(taken as int) + before.pending.skip(
                                taken as int,
                            ) =~= before.pending);
                            assert((before.delivered + before.pending.take(taken as int))
                                + before.pending.skip(taken as int) =~= before.delivered
                                + before.pending);
                        }
                        *self = StdoutArbiter {
                            phase: self.phase,
                            pending: rest,
                            received: self.received,
                            delivered: Ghost(before.delivered + before.pending.take(taken as int)),
                        };
                    }
                },
                PipeEvent::ReadFailed => {
                    self.phase = ArbiterPhase::Finished;
                },
                PipeEvent::WriteFailed => {
                    self.phase = ArbiterPhase::Finished;
                },
            }
        }
        self.awaited()
    }
}

} // verus!
