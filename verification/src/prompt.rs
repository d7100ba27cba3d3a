//! The whole banner: the segments in their order, on two lines.

use vstd::prelude::*;
use crate::color::Color;
use crate::colored_stream::{
    start_of_a_start, stepped, write_segment_keeps_the_output, ColoredStream, StreamState,
};
use crate::segments::{Cwd, ExitCode, Git, Hostname, K8s, Openstack, Time, User};
use crate::sink::ColorableStream;
use crate::wire::{reset_escape, utf8};

verus! {

/// The segments of a banner. Their order is fixed: when it is and who is
/// where comes first, then the place, then what the place is set up for; how
/// the previous command ended stands on a line of its own, where the next
/// command is typed.
pub struct Prompt {
    pub time: Time,
    pub hostname: Hostname,
    pub user: User,
    pub cwd: Cwd,
    pub git: Git,
    pub openstack: Openstack,
    pub k8s: K8s,
    pub exit_code: ExitCode,
}

impl Prompt {
    /// When it is, and who is where.
    pub open spec fn who_and_when(&self, before: StreamState) -> StreamState {
        before.write_segment(self.time).write_segment(self.hostname).write_segment(self.user)
    }

    /// The place, and what it is set up for.
    pub open spec fn place(&self, before: StreamState) -> StreamState {
        before.write_segment(self.cwd).write_segment(self.git).write_segment(
            self.openstack,
        ).write_segment(self.k8s)
    }

    /// The first line, before it is closed.
    pub open spec fn first_line(&self, before: StreamState) -> StreamState {
        self.place(self.who_and_when(before))
    }

    /// How the previous command ended, and the end of the banner.
    pub open spec fn second_line(&self, before: StreamState) -> StreamState {
        before.write_segment(self.exit_code).end_line().reset().write_all(utf8(" "@))
    }

    /// The banner: the first line, closed; the exit code on the second,
    /// closed too; the colours cleared; and a blank for the cursor to stand
    /// behind.
    pub open spec fn rendered(&self, before: StreamState) -> StreamState {
        self.second_line(self.first_line(before).new_line())
    }

    /// Whatever the segments show, the banner ends with the colours cleared
    /// and a blank, on a stream whose tracked background is black and on
    /// which no segment is pending.
    pub proof fn ends_with_the_colours_cleared(&self, before: StreamState)
        ensures
            self.rendered(before).bg == Color::black(),
            !self.rendered(before).boundary,
            !self.rendered(before).empty,
            self.rendered(before).out == self.first_line(before).new_line().write_segment(
                self.exit_code,
            ).end_line().out + reset_escape() + utf8(" "@),
    {
        reveal_strlit(" ");
        vstd::utf8::encode_utf8_first_scalar(" "@);
    }

    /// Each part of the banner only adds to the output.
    pub proof fn keeps_the_output(&self, before: StreamState)
        ensures
            before.out.is_prefix_of(self.who_and_when(before).out),
            before.out.is_prefix_of(self.place(before).out),
            before.out.is_prefix_of(self.second_line(before).out),
            before.out.is_prefix_of(self.rendered(before).out),
    {
        broadcast use start_of_a_start;

        self.who_and_when_keeps_the_output(before);
        self.place_keeps_the_output(before);
        self.second_line_keeps_the_output(before);
        let first = self.who_and_when(before);
        self.place_keeps_the_output(first);
        self.second_line_keeps_the_output(self.place(first).new_line());
    }

    proof fn who_and_when_keeps_the_output(&self, before: StreamState)
        ensures
            before.out.is_prefix_of(before.write_segment(self.time).out),
            before.write_segment(self.time).out.is_prefix_of(
                before.write_segment(self.time).write_segment(self.hostname).out,
            ),
            before.write_segment(self.time).write_segment(self.hostname).out.is_prefix_of(
                self.who_and_when(before).out,
            ),
            before.out.is_prefix_of(self.who_and_when(before).out),
    {
        broadcast use start_of_a_start;

        let a = before.write_segment(self.time);
        let b = a.write_segment(self.hostname);
        write_segment_keeps_the_output(before, self.time);
        write_segment_keeps_the_output(a, self.hostname);
        write_segment_keeps_the_output(b, self.user);
    }

    proof fn place_keeps_the_output(&self, before: StreamState)
        ensures
            before.out.is_prefix_of(before.write_segment(self.cwd).out),
            before.write_segment(self.cwd).out.is_prefix_of(
                before.write_segment(self.cwd).write_segment(self.git).out,
            ),
            before.write_segment(self.cwd).write_segment(self.git).out.is_prefix_of(
                before.write_segment(self.cwd).write_segment(self.git).write_segment(
                    self.openstack,
                ).out,
            ),
            before.write_segment(self.cwd).write_segment(self.git).write_segment(
                self.openstack,
            ).out.is_prefix_of(self.place(before).out),
            before.out.is_prefix_of(self.place(before).out),
    {
        broadcast use start_of_a_start;

        let a = before.write_segment(self.cwd);
        let b = a.write_segment(self.git);
        let c = b.write_segment(self.openstack);
        write_segment_keeps_the_output(before, self.cwd);
        write_segment_keeps_the_output(a, self.git);
        write_segment_keeps_the_output(b, self.openstack);
        write_segment_keeps_the_output(c, self.k8s);
    }

    proof fn second_line_keeps_the_output(&self, before: StreamState)
        ensures
            before.out.is_prefix_of(before.write_segment(self.exit_code).out),
            before.out.is_prefix_of(self.second_line(before).out),
            before.write_segment(self.exit_code).out.is_prefix_of(self.second_line(before).out),
    {
        broadcast use start_of_a_start;

        write_segment_keeps_the_output(before, self.exit_code);
    }

    /// The banner comes about part by part, and each part only adds to the
    /// output.
    proof fn rendered_in_steps(&self, before: StreamState)
        ensures
            self.who_and_when(before).out.is_prefix_of(self.rendered(before).out),
            self.first_line(before).out.is_prefix_of(self.rendered(before).out),
            self.first_line(before).new_line().out.is_prefix_of(self.rendered(before).out),
    {
        let who = self.who_and_when(before);
        let first = self.first_line(before);
        let fed = first.new_line();
        let all = self.rendered(before);
        self.keeps_the_output(who);
        self.keeps_the_output(fed);
        assert(first.out.is_prefix_of(fed.out));
        start_of_a_start(first.out, fed.out, all.out);
        start_of_a_start(who.out, first.out, all.out);
    }

    fn render_who_and_when<W: ColorableStream>(&mut self, w: &mut ColoredStream<W>) -> (r: Result<
        (),
        std::io::Error,
    >)
        ensures
            stepped(*old(w), *final(w), r, old(self).who_and_when(old(w)@)),
            final(self).cwd == old(self).cwd,
            final(self).git == old(self).git,
            final(self).openstack == old(self).openstack,
            final(self).k8s == old(self).k8s,
            final(self).exit_code == old(self).exit_code,
    {
        broadcast use start_of_a_start;

        proof {
            self.who_and_when_keeps_the_output(w@);
        }
        w.write_segment(&mut self.time)?;
        w.write_segment(&mut self.hostname)?;
        w.write_segment(&mut self.user)
    }

    fn render_place<W: ColorableStream>(&mut self, w: &mut ColoredStream<W>) -> (r: Result<
        (),
        std::io::Error,
    >)
        ensures
            stepped(*old(w), *final(w), r, old(self).place(old(w)@)),
            final(self).exit_code == old(self).exit_code,
    {
        broadcast use start_of_a_start;

        proof {
            self.place_keeps_the_output(w@);
        }
        w.write_segment(&mut self.cwd)?;
        w.write_segment(&mut self.git)?;
        w.write_segment(&mut self.openstack)?;
        w.write_segment(&mut self.k8s)
    }

    fn render_second_line<W: ColorableStream>(&mut self, w: &mut ColoredStream<W>) -> (r: Result<
        (),
        std::io::Error,
    >)
        ensures
            stepped(*old(w), *final(w), r, old(self).second_line(old(w)@)),
    {
        broadcast use start_of_a_start;

        proof {
            self.second_line_keeps_the_output(w@);
        }
        w.write_segment(&mut self.exit_code)?;
        w.end_line()?;
        w.reset()?;
        w.write_str(" ")
    }

    /// Writes the banner.
    pub fn render<W: ColorableStream>(&mut self, w: &mut ColoredStream<W>) -> (r: Result<
        (),
        std::io::Error,
    >)
        ensures
            stepped(*old(w), *final(w), r, old(self).rendered(old(w)@)),
    {
        broadcast use start_of_a_start;

        proof {
            self.rendered_in_steps(w@);
        }
        self.render_who_and_when(w)?;
        self.render_place(w)?;
        w.new_line()?;
        self.render_second_line(w)
    }
}

} // verus!
