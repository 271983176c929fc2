//! What holds of a watcher over whole runs: no byte is lost or moved, and the
//! shared flag is up exactly from the first byte on.

use crate::arbiter::{ArbiterPhase, ArbiterView, PipeEventView};
use vstd::prelude::*;

verus! {

/// The state of `arbiter` after `events`, handled in order.
pub open spec fn run(arbiter: ArbiterView, events: Seq<PipeEventView>) -> ArbiterView
    decreases events.len(),
{
    if events.len() == 0 {
        arbiter
    } else {
        run(arbiter, events.drop_last()).step(events.last())
    }
}

/// What the shared flag says after `arbiter` has handled `events`, where it
/// said `raised` before.
pub open spec fn flag_after(arbiter: ArbiterView, raised: bool, events: Seq<PipeEventView>) -> bool
    decreases events.len(),
{
    if events.len() == 0 {
        raised
    } else {
        flag_after(arbiter, raised, events.drop_last()) || run(
            arbiter,
            events.drop_last(),
        ).sees_first_byte(events.last())
    }
}

/// The bytes that the reads among `events` brought, in order.
pub open spec fn offered(events: Seq<PipeEventView>) -> Seq<u8>
    decreases events.len(),
{
    if events.len() == 0 {
        Seq::empty()
    } else {
        match events.last() {
            PipeEventView::Read(bytes) => offered(events.drop_last()) + bytes,
            _ => offered(events.drop_last()),
        }
    }
}

/// No byte is dropped, doubled or moved. At every moment the bytes delivered
/// to the real standard output, followed by those pending, are the bytes
/// received from the pipe; the bytes received are the beginning of all that
/// the reads brought, and all of it while the watcher has not ended.
pub proof fn law_bytes_pass_in_order(events: Seq<PipeEventView>)
    ensures
        ({
            let after = run(ArbiterView::initial(), events);
            &&& after.well_formed()
            &&& after.delivered + after.pending == after.received
            &&& after.received.is_prefix_of(offered(events))
            &&& after.phase != ArbiterPhase::Finished ==> after.received == offered(events)
        }),
    decreases events.len(),
{
    let start = ArbiterView::initial();
    if events.len() == 0 {
        assert(start.delivered + start.pending =~= start.received);
    } else {
        let before = run(start, events.drop_last());
        law_bytes_pass_in_order(events.drop_last());
        lemma_step_keeps_well_formed(before, events.last());
        let after = before.step(events.last());
        assert(after.received.is_prefix_of(offered(events))) by {
            match events.last() {
                PipeEventView::Read(bytes) => {
                    assert(before.received.is_prefix_of(offered(events.drop_last()) + bytes));
                },
                _ => {},
            }
        }
    }
}

/// One event leaves a well-formed watcher well-formed.
pub proof fn lemma_step_keeps_well_formed(arbiter: ArbiterView, event: PipeEventView)
    requires
        arbiter.well_formed(),
    ensures
        arbiter.step(event).well_formed(),
{
    if arbiter.phase != ArbiterPhase::Finished {
        match event {
            PipeEventView::Read(bytes) => {
                assert(arbiter.delivered + (arbiter.pending + bytes) =~= (arbiter.delivered
                    + arbiter.pending) + bytes);
            },
            PipeEventView::Written(count) => {
                let taken = arbiter.taken(count);
                assert(arbiter.pending.take(taken) + arbiter.pending.skip(taken)
                    =~= arbiter.pending);
                assert((arbiter.delivered + arbiter.pending.take(taken)) + arbiter.pending.skip(
                    taken,
                ) =~= arbiter.delivered + arbiter.pending);
            },
            _ => {},
        }
    }
}

/// The shared flag, lowered at the start, is up after a run exactly if the
/// watcher has received a byte: no later than the first byte, and not before.
pub proof fn law_flag_marks_first_byte(events: Seq<PipeEventView>)
    ensures
        flag_after(ArbiterView::initial(), false, events) == (run(
            ArbiterView::initial(),
            events,
        ).received.len() > 0),
    decreases events.len(),
{
    if events.len() > 0 {
        law_flag_marks_first_byte(events.drop_last());
        law_bytes_pass_in_order(events.drop_last());
    }
}

/// A raised flag stays raised, whatever the watcher handles.
pub proof fn law_flag_never_lowered(arbiter: ArbiterView, events: Seq<PipeEventView>)
    ensures
        flag_after(arbiter, true, events),
    decreases events.len(),
{
    if events.len() > 0 {
        law_flag_never_lowered(arbiter, events.drop_last());
    }
}

} // verus!
