//! How the previous command ended.

use vstd::prelude::*;
use crate::color::Color;
use crate::colored_stream::{ColoredStream, StreamState};
use crate::segments::Segment;
use crate::sink::ColorableStream;
use crate::wire::{push_signed_decimal, push_str, signed_decimal, utf8};

verus! {

/// The exit code of the previous command, where there was one.
pub struct ExitCode {
    code: Option<i32>,
}

impl ExitCode {
    /// The code that is shown; `None` where no command ran before.
    pub closed spec fn code(&self) -> Option<i32> {
        self.code
    }

    /// The segment of a command that ended with `code`, or of no command.
    pub fn new(code: Option<i32>) -> (segment: Self)
        ensures
            segment.code() == code,
    {
        Self { code }
    }

    /// Dark green after a success, dark red after a failure, dark blue where
    /// no command ran before.
    pub open spec fn background(&self) -> Color {
        match self.code() {
            Some(code) => if code == 0 {
                Color { r: 0, g: 100, b: 0 }
            } else {
                Color { r: 100, g: 0, b: 0 }
            },
            None => Color { r: 0, g: 0, b: 100 },
        }
    }

    /// Three blanks, or the code of a failure between two blanks.
    pub open spec fn text(&self) -> Seq<u8> {
        match self.code() {
            Some(code) => if code == 0 {
                utf8("   "@)
            } else {
                utf8(" "@) + signed_decimal(code as int) + utf8(" "@)
            },
            None => utf8("   "@),
        }
    }

    fn text_bytes(&self) -> (bytes: Vec<u8>)
        ensures
            bytes@ == self.text(),
    {
        let mut bytes: Vec<u8> = Vec::new();
        match self.code {
            Some(code) => {
                if code == 0 {
                    push_str(&mut bytes, "   ");
                } else {
                    push_str(&mut bytes, " ");
                    push_signed_decimal(&mut bytes, code);
                    push_str(&mut bytes, " ");
                }
            },
            None => {
                push_str(&mut bytes, "   ");
            },
        }
        bytes
    }
}

impl Segment for ExitCode {
    open spec fn rendered(&self, before: StreamState) -> StreamState {
        before.set_bg(self.background()).set_fg(Color { r: 200, g: 200, b: 200 }).write_all(
            self.text(),
        )
    }

    proof fn keeps_the_output(&self, before: StreamState) {
    }

    fn write<W: ColorableStream>(&mut self, w: &mut ColoredStream<W>) -> (r: Result<
        (),
        std::io::Error,
    >)
        ensures
            *final(self) == *old(self),
    {
        let bg = match self.code {
            Some(code) => if code == 0 {
                Color::from_rgb(0, 100, 0)
            } else {
                Color::from_rgb(100, 0, 0)
            },
            None => Color::from_rgb(0, 0, 100),
        };
        w.set_bg(bg)?;
        w.set_fg(Color::from_rgb(200, 200, 200))?;
        let text = self.text_bytes();
        w.write_all(text.as_slice())
    }
}

} // verus!
