//! What holds of a relay over whole runs: of any sequence of events, however
//! the reads cut the log into chunks.

use crate::arbiter::{ArbiterView, PipeEventView};
use crate::arbiter_laws::{flag_after, law_flag_marks_first_byte};
use crate::lines::{
    complete_lines, fresh, is_notification, joined, lemma_fresh_contains, lemma_fresh_of_distinct,
    lemma_fresh_of_parts, lemma_lines_of_joined, lemma_lines_of_parts, trailing,
};
use crate::relay::{
    lemma_shown_keeps_well_formed, RelayEventView, RelayNext, RelayPhase,
    RelayView, Variant,
};
use vstd::prelude::*;

verus! {

/// One event together with what the shared flag said when it was handled.
pub struct Occurrence {
    pub event: RelayEventView,
    pub output_begun: bool,
}

/// The state of `relay` after `events`, handled in order.
pub open spec fn run(relay: RelayView, events: Seq<Occurrence>) -> RelayView
    decreases events.len(),
{
    if events.len() == 0 {
        relay
    } else {
        run(relay, events.drop_last()).step(events.last().event, events.last().output_begun)
    }
}

/// All lines that `relay` has its caller write while it handles `events`, in
/// the order written.
pub open spec fn emitted(relay: RelayView, events: Seq<Occurrence>) -> Seq<Seq<u8>>
    decreases events.len(),
{
    if events.len() == 0 {
        Seq::empty()
    } else {
        emitted(relay, events.drop_last()) + run(relay, events.drop_last()).action(
            events.last().event,
            events.last().output_begun,
        ).emit
    }
}

/// The bytes that the reads among `events` brought, in order.
pub open spec fn stream(events: Seq<Occurrence>) -> Seq<u8>
    decreases events.len(),
{
    if events.len() == 0 {
        Seq::empty()
    } else {
        match events.last().event {
            RelayEventView::Read(chunk) => stream(events.drop_last()) + chunk,
            _ => stream(events.drop_last()),
        }
    }
}

/// Whether none of `events` finds a flag that ends `relay`.
pub open spec fn undisturbed(relay: RelayView, events: Seq<Occurrence>) -> bool {
    forall|i: int| 0 <= i < events.len() ==> !relay.yields((#[trigger] events[i]).output_begun)
}

/// Every run keeps a relay well-formed, leaves its variant and policy alone,
/// and adds to the lines it remembers exactly the lines it had written:
/// whatever is written is remembered, and nothing else is.
pub proof fn law_printed_records_emitted(relay: RelayView, events: Seq<Occurrence>)
    requires
        relay.well_formed(),
    ensures
        run(relay, events).well_formed(),
        run(relay, events).variant == relay.variant,
        run(relay, events).policy == relay.policy,
        run(relay, events).printed =~= relay.printed + emitted(relay, events),
    decreases events.len(),
{
    if events.len() > 0 {
        let before = run(relay, events.drop_last());
        law_printed_records_emitted(relay, events.drop_last());
        match events.last().event {
            RelayEventView::Read(chunk) => {
                lemma_shown_keeps_well_formed(before, chunk);
            },
            _ => {},
        }
    }
}

/// No line is written twice in a run, and none that the relay remembered
/// when the run began.
pub proof fn law_no_line_twice(relay: RelayView, events: Seq<Occurrence>)
    requires
        relay.well_formed(),
    ensures
        emitted(relay, events).no_duplicates(),
        forall|i: int|
            0 <= i < emitted(relay, events).len() ==> !relay.printed.contains(
                #[trigger] emitted(relay, events)[i],
            ) && is_notification(emitted(relay, events)[i]),
{
    law_printed_records_emitted(relay, events);
    let out = emitted(relay, events);
    let all = run(relay, events).printed;
    assert forall|i: int, j: int| 0 <= i < out.len() && 0 <= j < out.len() && i != j implies out[i]
        != out[j] by {
        assert(all[relay.printed.len() + i] == out[i]);
        assert(all[relay.printed.len() + j] == out[j]);
    }
    assert forall|i: int| 0 <= i < out.len() implies !relay.printed.contains(#[trigger] out[i])
        && is_notification(out[i]) by {
        assert(all[relay.printed.len() + i] == out[i]);
        if relay.printed.contains(out[i]) {
            let k = choose|k: int| 0 <= k < relay.printed.len() && relay.printed[k] == out[i];
            assert(all[k] == out[i]);
        }
    }
}

/// A relay that tails the log, and that no flag ends, writes what the bytes
/// it reads hold, whatever the chunks in which they arrive and whatever
/// failures lie between: the finished lines of the stream, each once, without
/// those it remembered. What it keeps unfinished is the stream's unfinished
/// end.
pub proof fn law_chunking_is_invisible(relay: RelayView, events: Seq<Occurrence>)
    requires
        relay.well_formed(),
        relay.phase == RelayPhase::Tailing,
        undisturbed(relay, events),
    ensures
        run(relay, events).phase == RelayPhase::Tailing,
        emitted(relay, events) =~= fresh(
            relay.printed,
            complete_lines(relay.partial + stream(events)),
        ),
        run(relay, events).partial =~= trailing(relay.partial + stream(events)),
    decreases events.len(),
{
    if events.len() == 0 {
        assert(relay.partial + stream(events) =~= relay.partial);
        crate::lines::lemma_no_feed_no_line(relay.partial);
    } else {
        let earlier = events.drop_last();
        let before = run(relay, earlier);
        assert(undisturbed(relay, earlier)) by {
            assert forall|i: int| 0 <= i < earlier.len() implies !relay.yields(
                (#[trigger] earlier[i]).output_begun,
            ) by {
                assert(earlier[i] == events[i]);
            }
        }
        law_chunking_is_invisible(relay, earlier);
        law_printed_records_emitted(relay, earlier);
        assert(!relay.yields(events[events.len() - 1].output_begun));
        match events.last().event {
            RelayEventView::Read(chunk) => {
                let read = relay.partial + stream(earlier);
                assert(relay.partial + stream(events) =~= read + chunk);
                lemma_lines_of_parts(read, chunk);
                lemma_fresh_of_parts(
                    relay.printed,
                    complete_lines(read),
                    complete_lines(trailing(read) + chunk),
                );
            },
            _ => {},
        }
    }
}

/// No new line is missed. A relay that tails the log, and that no flag ends,
/// writes a line exactly if the line is finished in what it reads, is more
/// than a terminator and was not remembered when the run began.
pub proof fn law_every_new_line_is_shown(
    relay: RelayView,
    events: Seq<Occurrence>,
    line: Seq<u8>,
)
    requires
        relay.well_formed(),
        relay.phase == RelayPhase::Tailing,
        undisturbed(relay, events),
    ensures
        emitted(relay, events).contains(line) <==> complete_lines(
            relay.partial + stream(events),
        ).contains(line) && line.len() > 1 && !relay.printed.contains(line),
{
    law_chunking_is_invisible(relay, events);
    lemma_fresh_contains(relay.printed, complete_lines(relay.partial + stream(events)), line);
}

/// Distinct lines appended to the log while a fresh relay tails it are each
/// written exactly once, in the order in which they were appended, however
/// the reads cut them. The lines are full lines with more than a terminator;
/// the relay has read the log up to a line's end and remembers none of them.
pub proof fn law_distinct_lines_once_in_order(
    relay: RelayView,
    lines: Seq<Seq<u8>>,
    events: Seq<Occurrence>,
)
    requires
        relay.well_formed(),
        relay.phase == RelayPhase::Tailing,
        relay.partial.len() == 0,
        undisturbed(relay, events),
        stream(events) == joined(lines),
        lines.no_duplicates(),
        forall|i: int|
            0 <= i < lines.len() ==> is_notification(#[trigger] lines[i])
                && !relay.printed.contains(lines[i]),
    ensures
        emitted(relay, events) =~= lines,
{
    law_chunking_is_invisible(relay, events);
    assert(relay.partial + stream(events) =~= joined(lines));
    lemma_lines_of_joined(lines);
    lemma_fresh_of_distinct(relay.printed, lines);
}

/// A line appended twice is written once.
pub proof fn law_same_line_twice_once(relay: RelayView, line: Seq<u8>, events: Seq<Occurrence>)
    requires
        relay.well_formed(),
        relay.phase == RelayPhase::Tailing,
        relay.partial.len() == 0,
        undisturbed(relay, events),
        stream(events) == line + line,
        is_notification(line),
        !relay.printed.contains(line),
    ensures
        emitted(relay, events) =~= seq![line],
{
    law_chunking_is_invisible(relay, events);
    let twice = seq![line, line];
    assert(twice.drop_last() =~= seq![line]);
    assert(seq![line].drop_last() =~= Seq::<Seq<u8>>::empty());
    let none = Seq::<Seq<u8>>::empty();
    assert(seq![line].last() == line && twice.last() == line);
    assert(joined(none) =~= Seq::<u8>::empty());
    assert(joined(seq![line]) =~= joined(none) + line);
    assert(joined(seq![line]) =~= line);
    assert(joined(twice) =~= line + line);
    assert(relay.partial + stream(events) =~= joined(twice));
    lemma_lines_of_joined(twice);
    assert(fresh(relay.printed, none) =~= none);
    assert(!none.contains(line));
    assert(fresh(relay.printed, seq![line]) =~= none.push(line));
    assert(fresh(relay.printed, seq![line]) =~= seq![line]);
    assert(fresh(relay.printed, seq![line]).contains(line)) by {
        assert(seq![line][0] == line);
    }
    assert(fresh(relay.printed, twice) =~= seq![line]);
}

/// A relay that has stopped stays stopped: whatever happens, it writes
/// nothing more, changes nothing and asks its caller to stop.
pub proof fn law_stopped_stays_silent(relay: RelayView, events: Seq<Occurrence>)
    requires
        relay.phase == RelayPhase::Stopped,
    ensures
        run(relay, events) == relay,
        emitted(relay, events) =~= Seq::<Seq<u8>>::empty(),
        forall|event: RelayEventView, output_begun: bool|
            #[trigger] relay.action(event, output_begun) == RelayView::quiet(
                false,
                0,
                RelayNext::Stop,
            ),
    decreases events.len(),
{
    if events.len() > 0 {
        law_stopped_stays_silent(relay, events.drop_last());
    }
}

/// Once the host has begun to print, the general-purpose relay writes no line
/// any more, though the log may go on growing: while every event finds the
/// flag raised, nothing is written, and the first read that succeeds ends the
/// relay.
pub proof fn law_output_silences_relay(relay: RelayView, events: Seq<Occurrence>)
    requires
        relay.variant == Variant::GeneralPurpose,
        forall|i: int| 0 <= i < events.len() ==> (#[trigger] events[i]).output_begun,
    ensures
        emitted(relay, events) =~= Seq::<Seq<u8>>::empty(),
        run(relay, events).printed == relay.printed,
        forall|i: int|
            0 <= i < events.len() && run(relay, events.take(i)).phase == RelayPhase::Tailing
                && (#[trigger] events[i]).event is Read ==> run(relay, events.take(i + 1)).phase
                == RelayPhase::Stopped,
    decreases events.len(),
{
    if events.len() > 0 {
        let earlier = events.drop_last();
        assert forall|i: int| 0 <= i < earlier.len() implies (
        #[trigger] earlier[i]).output_begun by {
            assert(earlier[i] == events[i]);
        }
        law_output_silences_relay(relay, earlier);
        lemma_run_keeps_variant(relay, earlier);
        assert(events[events.len() - 1].output_begun);
        assert forall|i: int|
            0 <= i < events.len() && run(relay, events.take(i)).phase == RelayPhase::Tailing
                && (#[trigger] events[i]).event is Read implies run(relay, events.take(i + 1)).phase
                == RelayPhase::Stopped by {
            if i < earlier.len() {
                assert(events.take(i) =~= earlier.take(i));
                assert(events.take(i + 1) =~= earlier.take(i + 1));
                assert(earlier[i] == events[i]);
            } else {
                assert(events.take(i) =~= earlier);
                assert(events.take(i + 1) =~= events);
            }
        }
    }
}

/// From the first byte that the host prints, the general-purpose relay is
/// silent. Where the watcher of standard output has received a byte in the
/// events it has handled, the shared flag, lowered at the start, is raised;
/// and a relay that finds it raised at each of its events writes nothing.
pub proof fn law_first_byte_silences_relay(
    printed: Seq<PipeEventView>,
    relay: RelayView,
    events: Seq<Occurrence>,
)
    requires
        crate::arbiter_laws::run(ArbiterView::initial(), printed).received.len() > 0,
        relay.variant == Variant::GeneralPurpose,
        forall|i: int|
            0 <= i < events.len() ==> (#[trigger] events[i]).output_begun == flag_after(
                ArbiterView::initial(),
                false,
                printed,
            ),
    ensures
        flag_after(ArbiterView::initial(), false, printed),
        emitted(relay, events) =~= Seq::<Seq<u8>>::empty(),
        run(relay, events).printed == relay.printed,
{
    law_flag_marks_first_byte(printed);
    law_output_silences_relay(relay, events);
}

/// A run does not change a relay's variant.
proof fn lemma_run_keeps_variant(relay: RelayView, events: Seq<Occurrence>)
    ensures
        run(relay, events).variant == relay.variant,
    decreases events.len(),
{
    if events.len() > 0 {
        lemma_run_keeps_variant(relay, events.drop_last());
    }
}

} // verus!
