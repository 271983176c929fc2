//! The notification relay: tails the notification log and shows each new line
//! once on standard error.
//!
//! The relay is a machine. Its caller opens the log, reads it, sleeps and
//! writes; after each of these it reports what happened as a [`RelayEvent`]
//! and is told in a [`RelayAction`] what to do next.

use crate::flag::SharedOutputFlag;
use crate::lines::{
    complete_lines, fresh, is_notification, lemma_contains_of_parts, lemma_fresh_is_new,
    lemma_lines_partition, lemma_no_feed_no_line, lemma_trailing_has_no_feed, trailing, LINE_FEED,
};
use vstd::prelude::*;

verus! {

/// Which host the relay is loaded into.
#[derive(Clone, Copy, PartialEq, Eq, Structural, Debug)]
pub enum Variant {
    /// Any client process. The relay creates the log where it is missing, and
    /// stops for good once the client has begun to print.
    GeneralPurpose,
    /// The narrower host. The log must exist, opening it is tried again until
    /// it works, and the relay runs as long as the process does.
    Restricted,
}

/// How long the relay waits before it tries again.
#[derive(Clone, Copy, PartialEq, Eq, Structural, Debug)]
pub struct BackoffPolicy {
    /// After a read that brought nothing to show, in milliseconds.
    pub idle_millis: u64,
    /// After a read or an open that failed, in milliseconds.
    pub error_millis: u64,
}

impl Default for BackoffPolicy {
    /// Ten milliseconds when idle, a quarter of a second after a failure.
    fn default() -> (policy: Self)
        ensures
            policy == (BackoffPolicy { idle_millis: 10, error_millis: 250 }),
    {
        BackoffPolicy { idle_millis: 10, error_millis: 250 }
    }
}

/// Where the relay stands.
#[derive(Clone, Copy, PartialEq, Eq, Structural, Debug)]
pub enum RelayPhase {
    /// The log is not open yet.
    Opening,
    /// The log is open and positioned behind what it held when it was opened.
    Tailing,
    /// The relay has ceased; it never starts again.
    Stopped,
}

/// What the caller has to do once the action's writes and pause are over.
#[derive(Clone, Copy, PartialEq, Eq, Structural, Debug)]
pub enum RelayNext {
    /// Open the log for reading and writing and seek to its end; create it
    /// first, where it is missing, only if `create` is set.
    Open { create: bool },
    /// Read on from the log.
    Read,
    /// End the thread.
    Stop,
}

/// What happened to the caller's last attempt.
#[derive(Clone, PartialEq, Eq, Debug)]
pub enum RelayEvent {
    /// The log is open and positioned at its end.
    Opened,
    /// The log could not be opened.
    OpenFailed,
    /// A read returned these bytes; none, where the log has not grown.
    Read(Vec<u8>),
    /// A read failed.
    ReadFailed,
}

/// A [`RelayEvent`] as a mathematical value.
pub enum RelayEventView {
    Opened,
    OpenFailed,
    Read(Seq<u8>),
    ReadFailed,
}

impl View for RelayEvent {
    type V = RelayEventView;

    open spec fn view(&self) -> RelayEventView {
        match self {
            RelayEvent::Opened => RelayEventView::Opened,
            RelayEvent::OpenFailed => RelayEventView::OpenFailed,
            RelayEvent::Read(bytes) => RelayEventView::Read(bytes@),
            RelayEvent::ReadFailed => RelayEventView::ReadFailed,
        }
    }
}

/// What the caller is to do, in this order: report the failure it has just
/// met on standard error, if `report` is set; write the lines of `emit` to
/// standard error as they are; sleep for `pause_millis`; go on as `next` says.
#[derive(Clone, PartialEq, Eq, Debug)]
pub struct RelayAction {
    pub report: bool,
    pub emit: Vec<Vec<u8>>,
    pub pause_millis: u64,
    pub next: RelayNext,
}

/// A [`RelayAction`] as a mathematical value.
pub struct RelayActionView {
    pub report: bool,
    pub emit: Seq<Seq<u8>>,
    pub pause_millis: u64,
    pub next: RelayNext,
}

/// The byte sequences that a vector of lines holds.
pub open spec fn line_views(lines: Seq<Vec<u8>>) -> Seq<Seq<u8>> {
    Seq::new(lines.len(), |i: int| lines[i]@)
}

impl View for RelayAction {
    type V = RelayActionView;

    open spec fn view(&self) -> RelayActionView {
        RelayActionView {
            report: self.report,
            emit: line_views(self.emit@),
            pause_millis: self.pause_millis,
            next: self.next,
        }
    }
}

/// The state of a relay as a mathematical value.
pub struct RelayView {
    pub variant: Variant,
    pub policy: BackoffPolicy,
    pub phase: RelayPhase,
    /// Every line shown so far, in the order shown: the relay's memory of
    /// what it must not show again.
    pub printed: Seq<Seq<u8>>,
    /// The bytes read behind the last line feed: a line that is not finished.
    pub partial: Seq<u8>,
}

impl RelayView {
    /// A relay that has done nothing yet.
    pub open spec fn initial(variant: Variant, policy: BackoffPolicy) -> RelayView {
        RelayView {
            variant,
            policy,
            phase: RelayPhase::Opening,
            printed: Seq::empty(),
            partial: Seq::empty(),
        }
    }

    /// What holds of every relay: the unfinished line holds no line feed, and
    /// the lines shown are full lines with more than a terminator, each shown
    /// once.
    pub open spec fn well_formed(self) -> bool {
        &&& !self.partial.contains(LINE_FEED)
        &&& self.printed.no_duplicates()
        &&& forall|i: int|
            0 <= i < self.printed.len() ==> is_notification(#[trigger] self.printed[i])
    }

    /// An action that writes nothing.
    pub open spec fn quiet(report: bool, pause_millis: u64, next: RelayNext) -> RelayActionView {
        RelayActionView { report, emit: Seq::empty(), pause_millis, next }
    }

    /// What the relay waits for in its phase. This is its first action, and
    /// its answer to an event that does not belong to its phase.
    pub open spec fn awaited(self) -> RelayActionView {
        match self.phase {
            RelayPhase::Opening => Self::quiet(
                false,
                0,
                RelayNext::Open { create: self.variant == Variant::GeneralPurpose },
            ),
            RelayPhase::Tailing => Self::quiet(false, 0, RelayNext::Read),
            RelayPhase::Stopped => Self::quiet(false, 0, RelayNext::Stop),
        }
    }

    /// Whether a successful read ends the relay: only in the general-purpose
    /// variant, once the host has begun to print.
    pub open spec fn yields(self, output_begun: bool) -> bool {
        self.variant == Variant::GeneralPurpose && output_begun
    }

    /// The lines that a read of `chunk` makes the relay show.
    pub open spec fn shown(self, chunk: Seq<u8>) -> Seq<Seq<u8>> {
        fresh(self.printed, complete_lines(self.partial + chunk))
    }

    /// The state after `event`, where `output_begun` is what the shared flag
    /// said when the event was handled.
    pub open spec fn step(self, event: RelayEventView, output_begun: bool) -> RelayView {
        match (self.phase, event) {
            (RelayPhase::Opening, RelayEventView::Opened) => RelayView {
                phase: RelayPhase::Tailing,
                ..self
            },
            (RelayPhase::Opening, RelayEventView::OpenFailed) => if self.variant
                == Variant::Restricted {
                self
            } else {
                RelayView { phase: RelayPhase::Stopped, ..self }
            },
            (RelayPhase::Tailing, RelayEventView::Read(chunk)) => if self.yields(output_begun) {
                RelayView { phase: RelayPhase::Stopped, ..self }
            } else {
                RelayView {
                    printed: self.printed + self.shown(chunk),
                    partial: trailing(self.partial + chunk),
                    ..self
                }
            },
            _ => self,
        }
    }

    /// The answer to `event`.
    pub open spec fn action(self, event: RelayEventView, output_begun: bool) -> RelayActionView {
        match (self.phase, event) {
            (RelayPhase::Opening, RelayEventView::Opened) => Self::quiet(false, 0, RelayNext::Read),
            (RelayPhase::Opening, RelayEventView::OpenFailed) => if self.variant
                == Variant::Restricted {
                Self::quiet(true, self.policy.error_millis, RelayNext::Open { create: false })
            } else {
                Self::quiet(true, 0, RelayNext::Stop)
            },
            (RelayPhase::Tailing, RelayEventView::Read(chunk)) => if self.yields(output_begun) {
                Self::quiet(false, 0, RelayNext::Stop)
            } else {
                RelayActionView {
                    report: false,
                    emit: self.shown(chunk),
                    pause_millis: if self.shown(chunk).len() == 0 {
                        self.policy.idle_millis
                    } else {
                        0
                    },
                    next: RelayNext::Read,
                }
            },
            (RelayPhase::Tailing, RelayEventView::ReadFailed) => Self::quiet(
                true,
                self.policy.error_millis,
                RelayNext::Read,
            ),
            _ => self.awaited(),
        }
    }
}

/// A read leaves a well-formed relay well-formed.
pub proof fn lemma_shown_keeps_well_formed(relay: RelayView, chunk: Seq<u8>)
    requires
        relay.well_formed(),
    ensures
        (RelayView {
            printed: relay.printed + relay.shown(chunk),
            partial: trailing(relay.partial + chunk),
            ..relay
        }).well_formed(),
{
    let data = relay.partial + chunk;
    let shown = relay.shown(chunk);
    let after = relay.printed + shown;
    lemma_trailing_has_no_feed(data);
    lemma_lines_partition(data);
    lemma_fresh_is_new(relay.printed, complete_lines(data));
    assert forall|i: int| 0 <= i < after.len() implies is_notification(#[trigger] after[i]) by {
        if i >= relay.printed.len() {
            let line = shown[i - relay.printed.len()];
            let k = choose|k: int|
                0 <= k < complete_lines(data).len() && complete_lines(data)[k] == line;
            assert(is_notification(line));
        }
    }
    assert forall|i: int, j: int| 0 <= i < after.len() && 0 <= j < after.len() && i
        != j implies after[i] != after[j] by {
        if i < relay.printed.len() && j >= relay.printed.len() {
            assert(relay.printed.contains(after[i]));
            assert(shown[j - relay.printed.len()] == after[j]);
        }
        if j < relay.printed.len() && i >= relay.printed.len() {
            assert(relay.printed.contains(after[j]));
            assert(shown[i - relay.printed.len()] == after[i]);
        }
        if i >= relay.printed.len() && j >= relay.printed.len() {
            assert(shown[i - relay.printed.len()] == after[i]);
            assert(shown[j - relay.printed.len()] == after[j]);
        }
    }
}

/// Whether two byte vectors hold the same bytes.
fn same_bytes(left: &Vec<u8>, right: &Vec<u8>) -> (same: bool)
    ensures
        same == (left@ == right@),
{
    if left.len() != right.len() {
        return false;
    }
    let mut i: usize = 0;
    while i < left.len()
        invariant
            left.len() == right.len(),
            i <= left.len(),
            forall|k: int| 0 <= k < i ==> left@[k] == right@[k],
        decreases left.len() - i,
    {
        if left[i] != right[i] {
            return false;
        }
        i += 1;
    }
    assert(left@ =~= right@);
    true
}

/// Whether `line` is among `printed`.
fn was_printed(printed: &Vec<Vec<u8>>, line: &Vec<u8>) -> (found: bool)
    ensures
        found == line_views(printed@).contains(line@),
{
    let mut i: usize = 0;
    while i < printed.len()
        invariant
            i <= printed.len(),
            forall|k: int| 0 <= k < i ==> line_views(printed@)[k] != line@,
        decreases printed.len() - i,
    {
        if same_bytes(&printed[i], line) {
            assert(line_views(printed@)[i as int] == line@);
            return true;
        }
        i += 1;
    }
    false
}

/// A second vector with the bytes of `line`.
fn copy_of(line: &Vec<u8>) -> (copy: Vec<u8>)
    ensures
        copy@ == line@,
{
    let mut copy: Vec<u8> = Vec::new();
    let mut i: usize = 0;
    while i < line.len()
        invariant
            i <= line.len(),
            copy@ == line@.take(i as int),
        decreases line.len() - i,
    {
        copy.push(line[i]);
        assert(line@.take(i + 1) =~= line@.take(i as int).push(line@[i as int]));
        i += 1;
    }
    assert(line@.take(line.len() as int) =~= line@);
    copy
}

/// Takes in the bytes of a read: finishes lines, appends those to show to
/// `printed` and returns them, and leaves the unfinished rest in `partial`.
fn take_in(printed: &mut Vec<Vec<u8>>, partial: &mut Vec<u8>, chunk: &Vec<u8>) -> (emit: Vec<
    Vec<u8>,
>)
    requires
        !old(partial)@.contains(LINE_FEED),
    ensures
        line_views(emit@) == fresh(
            line_views(old(printed)@),
            complete_lines(old(partial)@ + chunk@),
        ),
        line_views(final(printed)@) == line_views(old(printed)@) + line_views(emit@),
        final(partial)@ == trailing(old(partial)@ + chunk@),
{
    let ghost seen = line_views(printed@);
    let ghost rest = partial@;
    let mut emit: Vec<Vec<u8>> = Vec::new();
    let mut i: usize = 0;
    proof {
        assert(rest + chunk@.take(0) =~= rest);
        lemma_no_feed_no_line(rest);
        assert(line_views(emit@) =~= Seq::<Seq<u8>>::empty());
        assert(seen + line_views(emit@) =~= seen);
    }
    while i < chunk.len()
        invariant
            i <= chunk.len(),
            partial@ == trailing(rest + chunk@.take(i as int)),
            line_views(emit@) == fresh(seen, complete_lines(rest + chunk@.take(i as int))),
            line_views(printed@) == seen + line_views(emit@),
        decreases chunk.len() - i,
    {
        let byte = chunk[i];
        let ghost read = rest + chunk@.take(i as int);
        let ghost shown = line_views(emit@);
        proof {
            assert(rest + chunk@.take(i + 1) =~= read.push(byte));
            assert(read.push(byte).drop_last() =~= read);
        }
        partial.push(byte);
        if byte == LINE_FEED {
            let mut line: Vec<u8> = Vec::new();
            std::mem::swap(partial, &mut line);
            proof {
                lemma_contains_of_parts(seen, shown, line@);
                assert(complete_lines(read).push(line@).drop_last() =~= complete_lines(read));
            }
            if line.len() > 1 && !was_printed(printed, &line) {
                let copy = copy_of(&line);
                proof {
                    assert(line_views(emit@.push(line)) =~= shown.push(line@));
                    assert(line_views(printed@.push(copy)) =~= line_views(printed@).push(line@));
                    assert((seen + shown).push(line@) =~= seen + shown.push(line@));
                }
                printed.push(copy);
                emit.push(line);
            }
        }
        i += 1;
    }
    proof {
        assert(chunk@.take(chunk.len() as int) =~= chunk@);
    }
    emit
}

/// A relay: its variant and policy, its phase, the lines it has shown and the
/// line it has read in part.
#[derive(Debug)]
pub struct NotificationRelay {
    variant: Variant,
    policy: BackoffPolicy,
    phase: RelayPhase,
    printed: Vec<Vec<u8>>,
    partial: Vec<u8>,
}

impl View for NotificationRelay {
    type V = RelayView;

    closed spec fn view(&self) -> RelayView {
        RelayView {
            variant: self.variant,
            policy: self.policy,
            phase: self.phase,
            printed: line_views(self.printed@),
            partial: self.partial@,
        }
    }
}

impl NotificationRelay {
    #[verifier::type_invariant]
    closed spec fn holds(&self) -> bool {
        self@.well_formed()
    }

    /// A relay that has done nothing yet.
    pub fn new(variant: Variant, policy: BackoffPolicy) -> (relay: Self)
        ensures
            relay@ == RelayView::initial(variant, policy),
            relay@.well_formed(),
    {
        let relay = NotificationRelay {
            variant,
            policy,
            phase: RelayPhase::Opening,
            printed: Vec::new(),
            partial: Vec::new(),
        };
        assert(line_views(relay.printed@) =~= Seq::<Seq<u8>>::empty());
        relay
    }

    /// Which host the relay is loaded into.
    pub fn variant(&self) -> (variant: Variant)
        ensures
            variant == self@.variant,
    {
        self.variant
    }

    /// Where the relay stands.
    pub fn phase(&self) -> (phase: RelayPhase)
        ensures
            phase == self@.phase,
    {
        self.phase
    }

    /// The lines shown so far, in the order shown: full lines with more than
    /// a terminator, none of them twice.
    pub fn printed(&self) -> (printed: &Vec<Vec<u8>>)
        ensures
            line_views(printed@) == self@.printed,
            self@.well_formed(),
    {
        proof {
            use_type_invariant(self);
        }
        &self.printed
    }

    /// An action that writes nothing.
    fn quiet(report: bool, pause_millis: u64, next: RelayNext) -> (action: RelayAction)
        ensures
            action@ == RelayView::quiet(report, pause_millis, next),
    {
        let action = RelayAction { report, emit: Vec::new(), pause_millis, next };
        assert(line_views(action.emit@) =~= Seq::<Seq<u8>>::empty());
        action
    }

    /// What the relay waits for in its phase: the caller's first action, and
    /// the answer to an event that does not belong to the phase.
    pub fn awaited(&self) -> (action: RelayAction)
        ensures
            action@ == self@.awaited(),
    {
        match self.phase {
            RelayPhase::Opening => Self::quiet(
                false,
                0,
                RelayNext::Open { create: self.variant == Variant::GeneralPurpose },
            ),
            RelayPhase::Tailing => Self::quiet(false, 0, RelayNext::Read),
            RelayPhase::Stopped => Self::quiet(false, 0, RelayNext::Stop),
        }
    }

    /// Handles one event. `flag` is the shared flag as it stands now.
    ///
    /// The new state and the answer are those of [`RelayView::step`] and
    /// [`RelayView::action`]: a read in the tailing phase shows each finished
    /// line that is more than a terminator and was not shown before, unless
    /// the flag ends the relay first; a failed read is reported and tried
    /// again after the error pause; a failed open ends the general-purpose
    /// relay and is tried again by the restricted one.
    pub fn step(&mut self, event: RelayEvent, flag: &SharedOutputFlag) -> (action: RelayAction)
        ensures
            final(self)@ == old(self)@.step(event@, flag@),
            action@ == old(self)@.action(event@, flag@),
            final(self)@.well_formed(),
    {
        proof {
            use_type_invariant(&*self);
            if let RelayEventView::Read(chunk) = event@ {
                lemma_shown_keeps_well_formed(self@, chunk);
            }
        }
        match self.phase {
            RelayPhase::Opening => match event {
                RelayEvent::Opened => {
                    self.phase = RelayPhase::Tailing;
                    Self::quiet(false, 0, RelayNext::Read)
                },
                RelayEvent::OpenFailed => {
                    if self.variant == Variant::Restricted {
                        Self::quiet(
                            true,
                            self.policy.error_millis,
                            RelayNext::Open { create: false },
                        )
                    } else {
                        self.phase = RelayPhase::Stopped;
                        Self::quiet(true, 0, RelayNext::Stop)
                    }
                },
                _ => self.awaited(),
            },
            RelayPhase::Tailing => match event {
                RelayEvent::Read(chunk) => {
                    if self.variant == Variant::GeneralPurpose && flag.is_raised() {
                        self.phase = RelayPhase::Stopped;
                        Self::quiet(false, 0, RelayNext::Stop)
                    } else {
                        proof {
                            use_type_invariant(&*self);
                            lemma_shown_keeps_well_formed(self@, chunk@);
                        }
                        let mut printed: Vec<Vec<u8>> = Vec::new();
                        let mut partial: Vec<u8> = Vec::new();
                        proof {
                            assert(line_views(printed@) =~= Seq::<Seq<u8>>::empty());
                        }
                        std::mem::swap(&mut self.printed, &mut printed);
                        std::mem::swap(&mut self.partial, &mut partial);
                        let emit = take_in(&mut printed, &mut partial, &chunk);
                        self.printed = printed;
                        self.partial = partial;
                        let pause_millis = if emit.len() == 0 {
                            self.policy.idle_millis
                        } else {
                            0
                        };
                        RelayAction { report: false, emit, pause_millis, next: RelayNext::Read }
                    }
                },
                RelayEvent::ReadFailed => Self::quiet(
                    true,
                    self.policy.error_millis,
                    RelayNext::Read,
                ),
                _ => self.awaited(),
            },
            RelayPhase::Stopped => self.awaited(),
        }
    }
}

} // verus!
