//! The stream that carries the colour from one segment to the next.

use vstd::prelude::*;
use crate::color::Color;
use crate::segments::Segment;
use crate::sink::{recorded, takes, ColorableStream};
use crate::wire::{
    bg_escape, bg_escape_bytes, fg_escape, fg_escape_bytes, line_feed, reset_escape,
    reset_escape_bytes, separator, separator_bytes, utf8,
};

verus! {

/// What a stream is, as far as anything can be observed of it.
#[verifier::ext_equal]
pub struct StreamState {
    /// Nothing has been emitted on this line yet.
    pub empty: bool,
    /// A segment has ended, and the next write opens a new one.
    pub boundary: bool,
    /// The background that is active on the terminal.
    pub bg: Color,
    /// Every byte the sink has taken.
    pub out: Seq<u8>,
}

impl StreamState {
    /// A stream on a sink that has taken `out` before.
    pub open spec fn fresh(out: Seq<u8>) -> StreamState {
        StreamState { empty: true, boundary: false, bg: Color::black(), out }
    }

    /// The sink takes `bytes`; nothing else changes.
    pub open spec fn emit(self, bytes: Seq<u8>) -> StreamState {
        StreamState { out: self.out + bytes, ..self }
    }

    /// A segment has ended.
    pub open spec fn segment_finished(self) -> StreamState {
        StreamState { boundary: true, ..self }
    }

    /// Opens a segment on background `bg`. On a line that holds something
    /// already, the old background becomes the foreground, the new background
    /// is set and the separator is drawn in these colours; on an empty line
    /// only the background is set.
    pub open spec fn start_segment(self, bg: Color) -> StreamState {
        StreamState {
            empty: false,
            boundary: false,
            bg,
            out: if self.empty {
                self.out + bg_escape(bg)
            } else {
                self.out + fg_escape(self.bg) + bg_escape(bg) + separator()
            },
        }
    }

    /// Opens the segment that is pending, if one is, on the background that
    /// is active.
    pub open spec fn settle(self) -> StreamState {
        if self.boundary {
            self.start_segment(self.bg)
        } else {
            self
        }
    }

    /// Sets the foreground, whatever is pending.
    pub open spec fn set_fg_inner(self, color: Color) -> StreamState {
        StreamState { empty: false, out: self.out + fg_escape(color), ..self }
    }

    /// Sets the background, whatever is pending.
    pub open spec fn set_bg_inner(self, color: Color) -> StreamState {
        StreamState { empty: false, bg: color, out: self.out + bg_escape(color), ..self }
    }

    /// Sets the foreground inside a segment; a pending segment is opened
    /// first.
    pub open spec fn set_fg(self, color: Color) -> StreamState {
        self.settle().set_fg_inner(color)
    }

    /// Sets the background inside a segment; where a segment is pending, this
    /// opens it on `color`.
    pub open spec fn set_bg(self, color: Color) -> StreamState {
        if self.boundary {
            self.start_segment(color)
        } else {
            self.set_bg_inner(color)
        }
    }

    /// Writes raw bytes; a pending segment is opened first.
    pub open spec fn write(self, bytes: Seq<u8>) -> StreamState {
        StreamState { empty: false, ..self.settle().emit(bytes) }
    }

    /// Writes raw bytes, unless there are none: then nothing happens at all.
    pub open spec fn write_all(self, bytes: Seq<u8>) -> StreamState {
        if bytes.len() == 0 {
            self
        } else {
            self.write(bytes)
        }
    }

    /// Clears both colours on the terminal; the tracked background is black
    /// again.
    pub open spec fn reset(self) -> StreamState {
        StreamState { bg: Color::black(), out: self.out + reset_escape(), ..self }
    }

    /// Closes the line: the background that was active is handed over as
    /// the foreground, the separator is drawn, and last of all both colours
    /// are cleared.
    pub open spec fn end_line(self) -> StreamState {
        StreamState {
            empty: true,
            boundary: false,
            bg: Color::black(),
            out: self.out + fg_escape(self.bg) + separator() + reset_escape(),
        }
    }

    /// Closes the line and moves to the next one.
    pub open spec fn new_line(self) -> StreamState {
        let closed = self.end_line();
        StreamState { out: closed.out + line_feed(), ..closed }
    }

    /// Writes one segment: a boundary is marked, the segment does what it
    /// does, and a boundary is marked again.
    pub open spec fn write_segment<S: Segment>(self, segment: S) -> StreamState {
        segment.rendered(self.segment_finished()).segment_finished()
    }
}

/// Sits on a sink and tracks the background that is active on it.
pub struct ColoredStream<W: ColorableStream> {
    empty: bool,
    segment_start: bool,
    bg: Color,
    inner: W,
}

impl<W: ColorableStream> View for ColoredStream<W> {
    type V = StreamState;

    closed spec fn view(&self) -> StreamState {
        StreamState {
            empty: self.empty,
            boundary: self.segment_start,
            bg: self.bg,
            out: self.inner.written(),
        }
    }
}

/// What an operation on a stream promises, where `target` is the state it
/// leads to when the sink takes every write:
/// - if it succeeds, the stream is in `target`;
/// - whether it succeeds or not, the sink has kept what it had, and what it
///   has taken since is the start of what it was to take: after a failure
///   the line is written in part;
/// - it fails when the sink fails a call, and only then; the sink fails one
///   call at most, and the error that is returned is the error of that
///   call;
/// - on a sink that is sure to take as many bytes as there are to write, it
///   succeeds, and so does whatever writes nothing at all;
/// - the sink is sure to take afterwards what it was sure to take before,
///   less what it has taken.
pub open spec fn stepped<W: ColorableStream, T>(
    before: ColoredStream<W>,
    after: ColoredStream<W>,
    r: Result<T, std::io::Error>,
    target: StreamState,
) -> bool {
    &&& r is Ok ==> after@ =~= target
    &&& before@.out.is_prefix_of(after@.out)
    &&& after@.out.is_prefix_of(target.out)
    &&& recorded(before.failures(), after.failures(), r)
    &&& before.takes(target.out.len() - before@.out.len()) ==> r is Ok
    &&& r is Ok ==> after.room_left() + (target.out.len() - before@.out.len())
        >= before.room_left()
    &&& after.infallible() == before.infallible()
}

/// Writing a segment only adds to the output.
pub proof fn write_segment_keeps_the_output<S: Segment>(before: StreamState, segment: S)
    ensures
        before.out.is_prefix_of(before.write_segment(segment).out),
{
    segment.keeps_the_output(before.segment_finished());
}

/// The start of a start is a start.
pub broadcast proof fn start_of_a_start(a: Seq<u8>, b: Seq<u8>, c: Seq<u8>)
    requires
        #[trigger] a.is_prefix_of(b),
        #[trigger] b.is_prefix_of(c),
    ensures
        a.is_prefix_of(c),
{
}

impl<W: ColorableStream> ColoredStream<W> {
    /// Whether every write to the sink succeeds.
    pub closed spec fn infallible(&self) -> bool {
        self.inner.infallible()
    }

    /// How many of the bytes that the sink has taken it still holds back.
    pub closed spec fn held_back(&self) -> nat {
        self.inner.held_back()
    }

    /// How many more bytes the sink is sure to take.
    pub closed spec fn room_left(&self) -> nat {
        self.inner.room_left()
    }

    /// The errors of the calls that the sink has failed, in their order.
    pub closed spec fn failures(&self) -> Seq<std::io::Error> {
        self.inner.failures()
    }

    /// Whether the sink is sure to take `count` more bytes.
    pub open spec fn takes(&self, count: int) -> bool {
        takes(self.infallible(), self.room_left(), count)
    }

    /// A stream on `inner`, at the start of a line, on a black background.
    pub fn new(inner: W) -> (stream: Self)
        ensures
            stream@ == StreamState::fresh(inner.written()),
            stream.infallible() == inner.infallible(),
            stream.held_back() == inner.held_back(),
            stream.room_left() == inner.room_left(),
            stream.failures() == inner.failures(),
    {
        Self { empty: true, segment_start: false, bg: Color::from_rgb(0, 0, 0), inner }
    }

    /// Gives the sink back.
    pub fn into_inner(self) -> (inner: W)
        ensures
            inner.written() == self@.out,
            inner.infallible() == self.infallible(),
            inner.held_back() == self.held_back(),
            inner.room_left() == self.room_left(),
            inner.failures() == self.failures(),
    {
        self.inner
    }

    /// The background that is active.
    pub fn background(&self) -> (bg: Color)
        ensures
            bg == self@.bg,
    {
        self.bg
    }

    /// Opens a segment on background `bg`.
    pub fn start_segment(&mut self, bg: Color) -> (r: Result<(), std::io::Error>)
        ensures
            stepped(*old(self), *final(self), r, old(self)@.start_segment(bg)),
    {
        self.segment_start = false;
        if !self.empty {
            let previous = self.bg;
            self.set_fg_inner(previous)?;
            self.set_bg_inner(bg)?;
            self.emit(separator_bytes().as_slice())?;
        } else {
            self.set_bg_inner(bg)?;
        }
        self.empty = false;
        Ok(())
    }

    fn emit(&mut self, bytes: &[u8]) -> (r: Result<(), std::io::Error>)
        ensures
            stepped(*old(self), *final(self), r, old(self)@.emit(bytes@)),
    {
        self.inner.write_all(bytes)
    }

    fn segment_finished(&mut self)
        ensures
            final(self)@ == old(self)@.segment_finished(),
            final(self).infallible() == old(self).infallible(),
            final(self).room_left() == old(self).room_left(),
            final(self).failures() == old(self).failures(),
    {
        self.segment_start = true;
    }

    /// Sets the foreground, whatever is pending.
    pub fn set_fg_inner(&mut self, color: Color) -> (r: Result<(), std::io::Error>)
        ensures
            stepped(*old(self), *final(self), r, old(self)@.set_fg_inner(color)),
    {
        self.empty = false;
        self.emit(fg_escape_bytes(color).as_slice())
    }

    /// Sets the foreground inside a segment.
    pub fn set_fg(&mut self, color: Color) -> (r: Result<(), std::io::Error>)
        ensures
            stepped(*old(self), *final(self), r, old(self)@.set_fg(color)),
    {
        if self.segment_start {
            let bg = self.bg;
            self.start_segment(bg)?;
        }
        self.set_fg_inner(color)
    }

    fn set_bg_inner(&mut self, color: Color) -> (r: Result<(), std::io::Error>)
        ensures
            stepped(*old(self), *final(self), r, old(self)@.set_bg_inner(color)),
    {
        self.empty = false;
        self.bg = color;
        self.emit(bg_escape_bytes(color).as_slice())
    }

    /// Sets the background inside a segment, or opens the pending segment on
    /// it.
    pub fn set_bg(&mut self, color: Color) -> (r: Result<(), std::io::Error>)
        ensures
            stepped(*old(self), *final(self), r, old(self)@.set_bg(color)),
    {
        if self.segment_start {
            self.start_segment(color)
        } else {
            self.set_bg_inner(color)
        }
    }

    /// Writes one segment of the line. A boundary is marked before the
    /// segment and after it, so that whatever the segment does with the
    /// colours, the next one opens on the background that it left.
    pub fn write_segment<S: Segment>(&mut self, segment: &mut S) -> (r: Result<
        (),
        std::io::Error,
    >)
        ensures
            stepped(*old(self), *final(self), r, old(self)@.write_segment(*old(segment))),
    {
        self.segment_finished();
        segment.write(self)?;
        self.segment_finished();
        Ok(())
    }

    /// Closes the line.
    pub fn end_line(&mut self) -> (r: Result<(), std::io::Error>)
        ensures
            stepped(*old(self), *final(self), r, old(self)@.end_line()),
    {
        let fg = self.bg;
        self.set_fg_inner(fg)?;
        self.segment_start = false;
        self.emit(separator_bytes().as_slice())?;
        self.reset()?;
        self.empty = true;
        Ok(())
    }

    /// Closes the line and moves to the next one.
    pub fn new_line(&mut self) -> (r: Result<(), std::io::Error>)
        ensures
            stepped(*old(self), *final(self), r, old(self)@.new_line()),
    {
        self.end_line()?;
        let mut feed: Vec<u8> = Vec::new();
        feed.push(0x0au8);
        self.write_all(feed.as_slice())?;
        self.empty = true;
        Ok(())
    }

    /// Clears both colours.
    pub fn reset(&mut self) -> (r: Result<(), std::io::Error>)
        ensures
            stepped(*old(self), *final(self), r, old(self)@.reset()),
    {
        self.bg = Color::from_rgb(0, 0, 0);
        self.emit(reset_escape_bytes().as_slice())
    }

    /// Writes raw bytes: as many from the start of `buf` as the sink takes,
    /// and says how many they were. A pending segment is opened first.
    pub fn write(&mut self, buf: &[u8]) -> (r: Result<usize, std::io::Error>)
        ensures
            stepped(
                *old(self),
                *final(self),
                r,
                old(self)@.write(
                    match r {
                        Ok(n) => buf@.take(n as int),
                        Err(_) => buf@,
                    },
                ),
            ),
            r matches Ok(n) ==> n <= buf@.len(),
            old(self).takes(old(self)@.write(buf@).out.len() - old(self)@.out.len()) ==> r
                == Ok::<usize, std::io::Error>(buf.len()),
    {
        if self.segment_start {
            let bg = self.bg;
            self.start_segment(bg)?;
        }
        self.empty = false;
        self.inner.write(buf)
    }

    /// Writes raw bytes, all of them, unless there are none.
    pub fn write_all(&mut self, buf: &[u8]) -> (r: Result<(), std::io::Error>)
        ensures
            stepped(*old(self), *final(self), r, old(self)@.write_all(buf@)),
    {
        if buf.len() > 0 {
            if self.segment_start {
                let bg = self.bg;
                self.start_segment(bg)?;
            }
            self.empty = false;
            self.emit(buf)?;
        }
        Ok(())
    }

    /// Writes a text in UTF-8, unless it is empty.
    pub fn write_str(&mut self, text: &str) -> (r: Result<(), std::io::Error>)
        ensures
            stepped(*old(self), *final(self), r, old(self)@.write_all(utf8(text@))),
    {
        self.write_all(text.as_bytes())
    }

    /// Asks the sink to pass on what it holds back. The stream stays as it
    /// is; after a flush that succeeds, the sink holds nothing back.
    pub fn flush(&mut self) -> (r: Result<(), std::io::Error>)
        ensures
            final(self)@ == old(self)@,
            r is Ok ==> final(self).held_back() == 0,
            recorded(old(self).failures(), final(self).failures(), r),
            old(self).infallible() ==> r is Ok,
            final(self).room_left() >= old(self).room_left(),
            final(self).infallible() == old(self).infallible(),
    {
        self.inner.flush()
    }
}

} // verus!
