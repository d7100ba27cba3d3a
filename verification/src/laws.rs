//! What holds of every stream, whatever is written through it.

use vstd::prelude::*;
use crate::color::Color;
use crate::colored_stream::StreamState;
use crate::segments::git::Statuses;
use crate::segments::{K8s, Openstack, Segment};
use crate::wire::{bg_escape, fg_escape, line_feed, reset_escape, separator};

verus! {

/// A run of segments, each a background and the bytes written on it.
pub open spec fn feed(start: StreamState, segments: Seq<(Color, Seq<u8>)>) -> StreamState
    decreases segments.len(),
{
    if segments.len() == 0 {
        start
    } else {
        feed(start, segments.drop_last()).start_segment(segments.last().0).write(segments.last().1)
    }
}

/// After a run of segments the background of the last one is active, and the
/// line is not empty.
pub proof fn feed_tracks_the_last_background(start: StreamState, segments: Seq<(Color, Seq<u8>)>)
    requires
        segments.len() > 0,
    ensures
        feed(start, segments).bg == segments.last().0,
        !feed(start, segments).empty,
        !feed(start, segments).boundary,
{
}

/// Each segment of a run is opened by handing over the background of the one
/// before it. Segment `i` adds to the output, in this order: the foreground
/// set to the background of segment `i - 1`, the background set to its own,
/// the separator, and its content. The first segment on an empty line has
/// nothing handed over: it adds its background and its content.
pub proof fn each_segment_takes_over_the_background_before_it(
    start: StreamState,
    segments: Seq<(Color, Seq<u8>)>,
    i: int,
)
    requires
        0 <= i < segments.len(),
    ensures
        i > 0 ==> feed(start, segments.take(i + 1)).out == feed(start, segments.take(i)).out
            + fg_escape(segments[i - 1].0) + bg_escape(segments[i].0) + separator() + segments[i].1,
        i == 0 && start.empty ==> feed(start, segments.take(1)).out == start.out + bg_escape(
            segments[0].0,
        ) + segments[0].1,
        i == 0 && !start.empty ==> feed(start, segments.take(1)).out == start.out + fg_escape(
            start.bg,
        ) + bg_escape(segments[0].0) + separator() + segments[0].1,
        feed(start, segments.take(i + 1)).bg == segments[i].0,
{
    let upto = segments.take(i + 1);
    assert(upto.drop_last() =~= segments.take(i));
    assert(upto.last() == segments[i]);
    if i > 0 {
        feed_tracks_the_last_background(start, segments.take(i));
        assert(segments.take(i).last() == segments[i - 1]);
    } else {
        assert(feed(start, segments.take(0)) == start);
    }
}

/// After a boundary, whatever a segment does first opens it: setting the
/// background opens the segment on that background, and setting the
/// foreground or writing bytes opens it on the background that is active.
pub proof fn the_first_write_after_a_boundary_opens_the_segment(
    state: StreamState,
    color: Color,
    bytes: Seq<u8>,
)
    ensures
        state.segment_finished().set_bg(color) == state.start_segment(color),
        state.segment_finished().set_fg(color) == state.start_segment(state.bg).set_fg_inner(
            color,
        ),
        state.segment_finished().write(bytes) == state.start_segment(state.bg).emit(bytes),
        state.segment_finished().write_all(Seq::empty()) == state.segment_finished(),
{
}

/// A segment that leaves the stream as it finds it leaves no trace: the
/// output, the background and the state of the line are what they were, and
/// the segment after it is written as if the silent one had not been there.
pub proof fn a_silent_segment_leaves_no_trace<S: Segment, T: Segment>(
    before: StreamState,
    silent: S,
    next: T,
)
    requires
        silent.rendered(before.segment_finished()) == before.segment_finished(),
    ensures
        before.write_segment(silent).out == before.out,
        before.write_segment(silent).bg == before.bg,
        before.write_segment(silent).empty == before.empty,
        before.write_segment(silent).write_segment(next) == before.write_segment(next),
{
    assert(before.write_segment(silent).segment_finished() == before.segment_finished());
}

/// The segments that have nothing to show are silent: counts of changes that
/// are all zero, an OpenStack segment without a project, a Kubernetes segment
/// without a configuration.
pub proof fn segments_with_nothing_to_show_are_silent(
    before: StreamState,
    statuses: Statuses,
    openstack: Openstack,
    k8s: K8s,
)
    requires
        !statuses.any(),
        openstack.project_name() is None,
        k8s.server_name() is None,
        k8s.mgr_name() is None,
    ensures
        statuses.rendered(before) == before,
        openstack.rendered(before) == before,
        k8s.rendered(before) == before,
{
}

/// One thing that can be done to a stream.
pub enum Operation {
    StartSegment(Color),
    SetFg(Color),
    SetBg(Color),
    SetFgInner(Color),
    Write(Seq<u8>),
    SegmentFinished,
    EndLine,
    NewLine,
    Reset,
}

/// The state after one operation.
pub open spec fn apply(state: StreamState, operation: Operation) -> StreamState {
    match operation {
        Operation::StartSegment(bg) => state.start_segment(bg),
        Operation::SetFg(color) => state.set_fg(color),
        Operation::SetBg(color) => state.set_bg(color),
        Operation::SetFgInner(color) => state.set_fg_inner(color),
        Operation::Write(bytes) => state.write(bytes),
        Operation::SegmentFinished => state.segment_finished(),
        Operation::EndLine => state.end_line(),
        Operation::NewLine => state.new_line(),
        Operation::Reset => state.reset(),
    }
}

/// The state after a run of operations.
pub open spec fn apply_all(state: StreamState, operations: Seq<Operation>) -> StreamState
    decreases operations.len(),
{
    if operations.len() == 0 {
        state
    } else {
        apply(apply_all(state, operations.drop_last()), operations.last())
    }
}

/// A reset brings the tracked background back to black, wherever the stream
/// has been: after a reset, after any run of operations that follows it, and
/// after a second reset at once. A reset touches nothing else but the output.
pub proof fn reset_returns_to_black(state: StreamState, operations: Seq<Operation>)
    ensures
        state.reset().bg == Color::black(),
        apply_all(state.reset(), operations).reset().bg == Color::black(),
        state.reset().reset().bg == state.reset().bg,
        state.reset().empty == state.empty,
        state.reset().boundary == state.boundary,
{
}

/// The tracked background is the one that the terminal was last told to
/// show: whatever is done to a stream, the tracked background either stays
/// what it was, or the sequence that sets the new one goes out with the
/// change, or the colours are cleared and the tracked background is black.
pub proof fn the_tracked_background_is_what_was_last_set(state: StreamState, operation: Operation)
    ensures
        ({
            let after = apply(state, operation);
            ||| after.bg == state.bg
            ||| after.out == state.out + bg_escape(after.bg)
            ||| after.out == state.out + fg_escape(state.bg) + bg_escape(after.bg) + separator()
            ||| after.bg == Color::black() && after.out == state.out + reset_escape()
            ||| after.bg == Color::black() && after.out == state.out + fg_escape(state.bg)
                + separator() + reset_escape()
            ||| after.bg == Color::black() && after.out == state.out + fg_escape(state.bg)
                + separator() + reset_escape() + line_feed()
        }),
{
}

/// No colour is set without a byte.
proof fn escapes_are_not_empty(color: Color)
    ensures
        fg_escape(color).len() > 0,
        bg_escape(color).len() > 0,
        reset_escape().len() > 0,
{
}

/// One operation adds bytes to the output, and as many as it adds, so much
/// longer the output is. On a stream on which a segment is pending, an
/// operation that adds none changes nothing.
proof fn one_operation_adds_or_changes_nothing(state: StreamState, operation: Operation)
    ensures
        state.out.len() <= apply(state, operation).out.len(),
        state.boundary && apply(state, operation).out.len() == state.out.len() ==> apply(
            state,
            operation,
        ) == state,
{
    escapes_are_not_empty(state.bg);
    match operation {
        Operation::StartSegment(color) => escapes_are_not_empty(color),
        Operation::SetFg(color) => escapes_are_not_empty(color),
        Operation::SetBg(color) => escapes_are_not_empty(color),
        Operation::SetFgInner(color) => escapes_are_not_empty(color),
        _ => {},
    }
}

/// Laziness: on a stream on which a segment is pending, a run of operations
/// that adds no byte to the output changes nothing at all. So a segment that
/// shows nothing cannot be told from one that was never written.
pub proof fn what_adds_no_byte_changes_nothing(state: StreamState, operations: Seq<Operation>)
    requires
        state.boundary,
        apply_all(state, operations).out == state.out,
    ensures
        apply_all(state, operations) == state,
    decreases operations.len(),
{
    if operations.len() > 0 {
        let earlier = apply_all(state, operations.drop_last());
        output_only_grows(state, operations.drop_last());
        one_operation_adds_or_changes_nothing(earlier, operations.last());
        assert(earlier.out.len() == state.out.len());
        assert(earlier.out =~= state.out);
        what_adds_no_byte_changes_nothing(state, operations.drop_last());
    }
}

/// Nothing that is done to a stream takes back what the sink has taken.
pub proof fn output_only_grows(state: StreamState, operations: Seq<Operation>)
    ensures
        state.out.is_prefix_of(apply_all(state, operations).out),
    decreases operations.len(),
{
    if operations.len() > 0 {
        let earlier = apply_all(state, operations.drop_last());
        output_only_grows(state, operations.drop_last());
        assert(earlier.out.is_prefix_of(apply(earlier, operations.last()).out));
    }
}

} // verus!
