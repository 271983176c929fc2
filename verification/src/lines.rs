//! Lines of the notification log: how a stream of bytes falls into lines, and
//! which of them a relay has yet to show.

use vstd::prelude::*;

verus! {

/// The byte that ends a line.
pub const LINE_FEED: u8 = 0x0a;

/// A full line: bytes without a line feed, followed by one line feed.
pub open spec fn is_line(line: Seq<u8>) -> bool {
    line.len() >= 1 && line.last() == LINE_FEED && !line.drop_last().contains(LINE_FEED)
}

/// A line worth showing: a full line with more in it than its terminator.
pub open spec fn is_notification(line: Seq<u8>) -> bool {
    is_line(line) && line.len() > 1
}

/// The bytes of `data` behind its last line feed: the line that is not
/// finished yet.
pub open spec fn trailing(data: Seq<u8>) -> Seq<u8>
    decreases data.len(),
{
    if data.len() == 0 || data.last() == LINE_FEED {
        Seq::empty()
    } else {
        trailing(data.drop_last()).push(data.last())
    }
}

/// The full lines of `data`, in order, each with its line feed.
pub open spec fn complete_lines(data: Seq<u8>) -> Seq<Seq<u8>>
    decreases data.len(),
{
    if data.len() == 0 {
        Seq::empty()
    } else if data.last() == LINE_FEED {
        complete_lines(data.drop_last()).push(trailing(data.drop_last()).push(LINE_FEED))
    } else {
        complete_lines(data.drop_last())
    }
}

/// All of `lines`, one behind the other.
pub open spec fn joined(lines: Seq<Seq<u8>>) -> Seq<u8>
    decreases lines.len(),
{
    if lines.len() == 0 {
        Seq::empty()
    } else {
        joined(lines.drop_last()) + lines.last()
    }
}

/// Of `lines`, those that are shown to a reader who has seen `printed`: each
/// line with more than a terminator that is neither in `printed` nor earlier in
/// `lines`, in the order of `lines`.
pub open spec fn fresh(printed: Seq<Seq<u8>>, lines: Seq<Seq<u8>>) -> Seq<Seq<u8>>
    decreases lines.len(),
{
    if lines.len() == 0 {
        Seq::empty()
    } else {
        let earlier = fresh(printed, lines.drop_last());
        let line = lines.last();
        if line.len() > 1 && !printed.contains(line) && !earlier.contains(line) {
            earlier.push(line)
        } else {
            earlier
        }
    }
}

/// The unfinished line holds no line feed.
pub proof fn lemma_trailing_has_no_feed(data: Seq<u8>)
    ensures
        !trailing(data).contains(LINE_FEED),
        trailing(data).len() <= data.len(),
    decreases data.len(),
{
    if data.len() == 0 || data.last() == LINE_FEED {
    } else {
        let rest = trailing(data.drop_last());
        lemma_trailing_has_no_feed(data.drop_last());
        assert forall|i: int| 0 <= i < rest.push(data.last()).len() implies rest.push(
            data.last(),
        )[i] != LINE_FEED by {
            if i < rest.len() {
                assert(rest.contains(rest[i]));
            }
        }
    }
}

/// Data without a line feed holds no full line and is all unfinished.
pub proof fn lemma_no_feed_no_line(data: Seq<u8>)
    requires
        !data.contains(LINE_FEED),
    ensures
        complete_lines(data) =~= Seq::<Seq<u8>>::empty(),
        trailing(data) =~= data,
    decreases data.len(),
{
    if data.len() > 0 {
        assert(data.contains(data.last()));
        assert forall|i: int| 0 <= i < data.drop_last().len() implies data.drop_last()[i]
            != LINE_FEED by {
            assert(data.contains(data[i]));
        }
        lemma_no_feed_no_line(data.drop_last());
    }
}

/// Every element of `complete_lines` is a full line, and the full lines
/// followed by the unfinished line are the data again: nothing is lost, added
/// or moved.
pub proof fn lemma_lines_partition(data: Seq<u8>)
    ensures
        forall|i: int| 0 <= i < complete_lines(data).len() ==> is_line(
            #[trigger] complete_lines(data)[i],
        ),
        joined(complete_lines(data)) + trailing(data) =~= data,
    decreases data.len(),
{
    if data.len() == 0 {
    } else {
        let init = data.drop_last();
        lemma_lines_partition(init);
        lemma_trailing_has_no_feed(init);
        if data.last() == LINE_FEED {
            let line = trailing(init).push(LINE_FEED);
            assert(line.drop_last() =~= trailing(init));
            assert(complete_lines(data).drop_last() =~= complete_lines(init));
            assert(joined(complete_lines(data)) == joined(complete_lines(init)) + line);
            assert(joined(complete_lines(init)) + line =~= (joined(complete_lines(init))
                + trailing(init)).push(LINE_FEED));
            assert(init.push(LINE_FEED) =~= data);
        } else {
            assert(joined(complete_lines(init)) + trailing(data) =~= (joined(complete_lines(init))
                + trailing(init)).push(data.last()));
            assert(init.push(data.last()) =~= data);
        }
    }
}

/// Reading data in two parts finds the same lines as reading it at once: the
/// lines of the first part, then the lines of what the first part left
/// unfinished followed by the second part.
pub proof fn lemma_lines_of_parts(first: Seq<u8>, second: Seq<u8>)
    ensures
        complete_lines(first + second) =~= complete_lines(first) + complete_lines(
            trailing(first) + second,
        ),
        trailing(first + second) =~= trailing(trailing(first) + second),
    decreases second.len(),
{
    if second.len() == 0 {
        assert(first + second =~= first);
        assert(trailing(first) + second =~= trailing(first));
        lemma_trailing_has_no_feed(first);
        lemma_no_feed_no_line(trailing(first));
    } else {
        let init = second.drop_last();
        lemma_lines_of_parts(first, init);
        assert((first + second).drop_last() =~= first + init);
        assert((trailing(first) + second).drop_last() =~= trailing(first) + init);
        assert((first + second).last() == second.last());
        assert((trailing(first) + second).last() == second.last());
    }
}

/// One full line on its own is its only line, and leaves nothing unfinished.
pub proof fn lemma_single_line(line: Seq<u8>)
    requires
        is_line(line),
    ensures
        complete_lines(line) =~= seq![line],
        trailing(line) =~= Seq::<u8>::empty(),
{
    lemma_no_feed_no_line(line.drop_last());
    assert(line.drop_last().push(LINE_FEED) =~= line);
}

/// Full lines written one behind the other are read back as they were written.
pub proof fn lemma_lines_of_joined(lines: Seq<Seq<u8>>)
    requires
        forall|i: int| 0 <= i < lines.len() ==> is_line(#[trigger] lines[i]),
    ensures
        complete_lines(joined(lines)) =~= lines,
        trailing(joined(lines)) =~= Seq::<u8>::empty(),
    decreases lines.len(),
{
    if lines.len() > 0 {
        let init = lines.drop_last();
        lemma_lines_of_joined(init);
        lemma_lines_of_parts(joined(init), lines.last());
        assert(trailing(joined(init)) + lines.last() =~= lines.last());
        lemma_single_line(lines.last());
    }
}

/// What is shown of `lines` is taken from `lines`, holds no line twice, no line
/// that `printed` holds and no line that is only a terminator.
pub proof fn lemma_fresh_is_new(printed: Seq<Seq<u8>>, lines: Seq<Seq<u8>>)
    ensures
        fresh(printed, lines).no_duplicates(),
        fresh(printed, lines).len() <= lines.len(),
        forall|i: int|
            0 <= i < fresh(printed, lines).len() ==> {
                let line = #[trigger] fresh(printed, lines)[i];
                lines.contains(line) && !printed.contains(line) && line.len() > 1
            },
    decreases lines.len(),
{
    if lines.len() > 0 {
        let init = lines.drop_last();
        let earlier = fresh(printed, init);
        lemma_fresh_is_new(printed, init);
        assert forall|i: int| 0 <= i < fresh(printed, lines).len() implies lines.contains(
            #[trigger] fresh(printed, lines)[i],
        ) by {
            if i < earlier.len() {
                let k = choose|k: int| 0 <= k < init.len() && init[k] == earlier[i];
                assert(lines[k] == earlier[i]);
            } else {
                assert(lines[lines.len() - 1] == lines.last());
            }
        }
        assert forall|i: int, j: int|
            0 <= i < fresh(printed, lines).len() && 0 <= j < fresh(printed, lines).len() && i
                != j implies fresh(printed, lines)[i] != fresh(printed, lines)[j] by {
            if i < earlier.len() {
                assert(earlier.contains(earlier[i]));
            }
            if j < earlier.len() {
                assert(earlier.contains(earlier[j]));
            }
        }
    }
}

/// A line is shown of `lines` exactly if it is in `lines`, is more than a
/// terminator and is not in `printed`.
pub proof fn lemma_fresh_contains(printed: Seq<Seq<u8>>, lines: Seq<Seq<u8>>, line: Seq<u8>)
    ensures
        fresh(printed, lines).contains(line) <==> lines.contains(line) && line.len() > 1
            && !printed.contains(line),
    decreases lines.len(),
{
    lemma_fresh_is_new(printed, lines);
    if lines.len() > 0 {
        let init = lines.drop_last();
        let earlier = fresh(printed, init);
        lemma_fresh_contains(printed, init, line);
        if lines.contains(line) && line.len() > 1 && !printed.contains(line) {
            let k = choose|k: int| 0 <= k < lines.len() && lines[k] == line;
            if k < init.len() {
                assert(init[k] == line);
                let m = choose|m: int| 0 <= m < earlier.len() && earlier[m] == line;
                assert(fresh(printed, lines)[m] == line);
            } else if earlier.contains(line) {
                let m = choose|m: int| 0 <= m < earlier.len() && earlier[m] == line;
                assert(fresh(printed, lines)[m] == line);
            } else {
                assert(fresh(printed, lines)[earlier.len() as int] == line);
            }
        }
    }
}

/// A line is in two sequences laid end to end exactly if it is in one of them.
pub proof fn lemma_contains_of_parts(first: Seq<Seq<u8>>, second: Seq<Seq<u8>>, line: Seq<u8>)
    ensures
        (first + second).contains(line) <==> first.contains(line) || second.contains(line),
{
    if first.contains(line) {
        let k = choose|k: int| 0 <= k < first.len() && first[k] == line;
        assert((first + second)[k] == line);
    }
    if second.contains(line) {
        let k = choose|k: int| 0 <= k < second.len() && second[k] == line;
        assert((first + second)[first.len() + k] == line);
    }
    if (first + second).contains(line) {
        let k = choose|k: int| 0 <= k < (first + second).len() && (first + second)[k] == line;
        if k < first.len() {
            assert(first[k] == line);
        } else {
            assert(second[k - first.len()] == line);
        }
    }
}

/// Showing lines in two parts shows what showing them at once does: the
/// second part is shown to a reader who has also seen what the first part
/// gave.
pub proof fn lemma_fresh_of_parts(
    printed: Seq<Seq<u8>>,
    first: Seq<Seq<u8>>,
    second: Seq<Seq<u8>>,
)
    ensures
        fresh(printed, first + second) =~= fresh(printed, first) + fresh(
            printed + fresh(printed, first),
            second,
        ),
    decreases second.len(),
{
    let shown = fresh(printed, first);
    if second.len() == 0 {
        assert(first + second =~= first);
    } else {
        let init = second.drop_last();
        let line = second.last();
        lemma_fresh_of_parts(printed, first, init);
        assert((first + second).drop_last() =~= first + init);
        assert((first + second).last() == line);
        let earlier = fresh(printed + shown, init);
        let whole = fresh(printed, first + init);
        assert(whole =~= shown + earlier);
        lemma_contains_of_parts(printed, shown, line);
        lemma_contains_of_parts(shown, earlier, line);
    }
}

/// Lines that differ from each other, each more than a terminator and none
/// seen before, are all shown, in their order.
pub proof fn lemma_fresh_of_distinct(printed: Seq<Seq<u8>>, lines: Seq<Seq<u8>>)
    requires
        lines.no_duplicates(),
        forall|i: int|
            0 <= i < lines.len() ==> (#[trigger] lines[i]).len() > 1 && !printed.contains(
                lines[i],
            ),
    ensures
        fresh(printed, lines) =~= lines,
    decreases lines.len(),
{
    if lines.len() > 0 {
        let init = lines.drop_last();
        lemma_fresh_of_distinct(printed, init);
        if init.contains(lines.last()) {
            let k = choose|k: int| 0 <= k < init.len() && init[k] == lines.last();
            assert(lines[k] == lines[lines.len() - 1]);
        }
    }
}

} // verus!
