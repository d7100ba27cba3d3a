//! Who is logged in.

use vstd::prelude::*;
use crate::color::Color;
use crate::colored_stream::{ColoredStream, StreamState};
use crate::segments::Segment;
use crate::sink::ColorableStream;
use crate::wire::{push_str, utf8};

verus! {

/// The user that the process runs as: whether it is root, and its name,
/// where the system knows one for it.
pub struct User {
    is_root: bool,
    name: Option<String>,
}

impl User {
    /// Whether the user is root.
    pub closed spec fn is_root(&self) -> bool {
        self.is_root
    }

    /// The name; `None` where the system knows no user of that id.
    pub closed spec fn name(&self) -> Option<String> {
        self.name
    }

    /// The user with the id `uid`, who is root if that is 0, and with the
    /// name that the system gave for it.
    pub fn new(uid: u32, name: Option<String>) -> (segment: Self)
        ensures
            segment.is_root() == (uid == 0),
            segment.name() == name,
    {
        Self { is_root: uid == 0, name }
    }

    /// Bright red without a name; else red for root and teal for anyone
    /// else.
    pub open spec fn background(&self) -> Color {
        if self.name() is None {
            Color { r: 255, g: 0, b: 0 }
        } else if self.is_root() {
            Color { r: 200, g: 30, b: 30 }
        } else {
            Color { r: 60, g: 100, b: 100 }
        }
    }

    /// The name between blanks, or the badge of a user without a name.
    pub open spec fn text(&self) -> Seq<u8> {
        match self.name() {
            Some(name) => utf8(" "@) + utf8(name@) + utf8(" "@),
            None => utf8(" ☠ "@),
        }
    }
}

impl Segment for User {
    open spec fn rendered(&self, before: StreamState) -> StreamState {
        before.set_bg(self.background()).set_fg(Color { r: 230, g: 230, b: 230 }).write_all(
            self.text(),
        )
    }

    proof fn keeps_the_output(&self, before: StreamState) {
    }

    fn write<W: ColorableStream>(&mut self, w: &mut ColoredStream<W>) -> (r: Result<
        (),
        std::io::Error,
    >)
        ensures
            *final(self) == *old(self),
    {
        let mut text: Vec<u8> = Vec::new();
        match &self.name {
            Some(name) => {
                let bg = if self.is_root {
                    Color::from_rgb(200, 30, 30)
                } else {
                    Color::from_rgb(60, 100, 100)
                };
                w.set_bg(bg)?;
                push_str(&mut text, " ");
                push_str(&mut text, name.as_str());
                push_str(&mut text, " ");
            },
            None => {
                w.set_bg(Color::from_rgb(255, 0, 0))?;
                push_str(&mut text, " ☠ ");
            },
        }
        w.set_fg(Color::from_rgb(230, 230, 230))?;
        w.write_all(text.as_slice())
    }
}

} // verus!
