//! The name of the machine, and whether it is reached over SSH.

use vstd::prelude::*;
use crate::color::Color;
use crate::colored_stream::{ColoredStream, StreamState};
use crate::segments::Segment;
use crate::sink::ColorableStream;
use crate::wire::{push_str, utf8};

verus! {

/// The name of the machine; empty where it could not be had.
pub struct Hostname {
    hostname: String,
    ssh: bool,
}

impl Hostname {
    /// The name of the machine; empty where it is not known.
    pub closed spec fn hostname(&self) -> Seq<char> {
        self.hostname@
    }

    /// Whether the session came in over SSH.
    pub closed spec fn ssh(&self) -> bool {
        self.ssh
    }

    /// The segment of the machine `hostname`, reached over SSH or not.
    pub fn new(hostname: String, ssh: bool) -> (segment: Self)
        ensures
            segment.hostname() == hostname@,
            segment.ssh() == ssh,
    {
        Self { hostname, ssh }
    }

    /// Red without a name, orange over SSH, near black else.
    pub open spec fn background(&self) -> Color {
        if self.hostname().len() == 0 {
            Color { r: 255, g: 0, b: 0 }
        } else if self.ssh() {
            Color { r: 255, g: 80, b: 0 }
        } else {
            Color { r: 30, g: 30, b: 30 }
        }
    }

    /// A lock over SSH and a computer else, then the name.
    pub open spec fn text(&self) -> Seq<u8> {
        utf8(if self.ssh() { " 🔐 "@ } else { " 💻 "@ }) + utf8(self.hostname()) + utf8(" "@)
    }
}

impl Segment for Hostname {
    open spec fn rendered(&self, before: StreamState) -> StreamState {
        before.set_bg(self.background()).set_fg(Color { r: 255, g: 255, b: 255 }).write_all(
            self.text(),
        )
    }

    proof fn keeps_the_output(&self, before: StreamState) {
    }

    fn write<W: ColorableStream>(&mut self, w: &mut ColoredStream<W>) -> (r: Result<
        (),
        std::io::Error,
    >)
        ensures
            *final(self) == *old(self),
    {
        let bg = if self.hostname.as_str().is_empty() {
            Color::from_rgb(255, 0, 0)
        } else if self.ssh {
            Color::from_rgb(255, 80, 0)
        } else {
            Color::from_rgb(30, 30, 30)
        };
        w.set_bg(bg)?;
        w.set_fg(Color::from_rgb(255, 255, 255))?;
        let mut text: Vec<u8> = Vec::new();
        if self.ssh {
            push_str(&mut text, " 🔐 ");
        } else {
            push_str(&mut text, " 💻 ");
        }
        push_str(&mut text, self.hostname.as_str());
        push_str(&mut text, " ");
        w.write_all(text.as_slice())
    }
}

} // verus!
