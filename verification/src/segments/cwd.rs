//! The working directory, told from the home directory where it lies in it.

use vstd::prelude::*;
use crate::color::Color;
use crate::colored_stream::{ColoredStream, StreamState};
use crate::segments::Segment;
use crate::sink::ColorableStream;
use crate::text::text_of;
use crate::wire::{push_str, utf8};

verus! {

/// The path `path` as it is told from the directory `base`, where `base`
/// leads to it, as `std::path::Path::strip_prefix` returns it.
pub uninterp spec fn told_from_home(path: Seq<char>, base: Seq<char>) -> Option<Seq<char>>;

/// `std::path::Path::strip_prefix`: what is left of `path` when the parts of
/// `base` are taken from its start, where all of them stand there; nothing,
/// where they do not.
#[verifier::external_body]
fn told_from(path: &str, base: &str) -> (r: Option<String>)
    ensures
        text_of(r) == told_from_home(path@, base@),
{
    std::path::Path::new(path).strip_prefix(base).ok().map(|rest| rest.display().to_string())
}

/// The working directory: its path, and the path from the home directory to
/// it, where it lies in the home directory.
pub struct Cwd {
    path: String,
    from_home: Option<String>,
}

/// The path that is shown where the working directory is not known.
pub open spec fn unknown_path() -> Seq<char> {
    " /?/?/? "@
}

impl Cwd {
    /// The path of the working directory.
    pub closed spec fn path(&self) -> Seq<char> {
        self.path@
    }

    /// The path from the home directory to the working directory; `None`
    /// where the working directory does not lie in the home directory.
    pub closed spec fn from_home(&self) -> Option<String> {
        self.from_home
    }

    /// The segment of the working directory `path`, which lies in the home
    /// directory if `from_home` is there, and is reached from it by that
    /// path.
    pub fn from_parts(path: String, from_home: Option<String>) -> (segment: Self)
        ensures
            segment.path() == path@,
            segment.from_home() == from_home,
    {
        Self { path, from_home }
    }

    /// The segment of the working directory `cwd`, told from `home` where
    /// it lies in it. Without a working directory a path of question marks
    /// stands for it; without a home directory nothing is told from it.
    pub fn new(cwd: Option<String>, home: Option<String>) -> (segment: Self)
        ensures
            segment.path() == match cwd {
                Some(path) => path@,
                None => unknown_path(),
            },
            text_of(segment.from_home()) == match home {
                Some(home) => told_from_home(segment.path(), home@),
                None => None,
            },
    {
        let path = match cwd {
            Some(path) => path,
            None => " /?/?/? ".to_owned(),
        };
        let from_home = match home {
            Some(home) => told_from(path.as_str(), home.as_str()),
            None => None,
        };
        Self::from_parts(path, from_home)
    }

    /// `~/` and the path from the home directory, or the whole path, between
    /// blanks.
    pub open spec fn text(&self) -> Seq<u8> {
        match self.from_home() {
            Some(rest) => utf8(" ~/"@) + utf8(rest@) + utf8(" "@),
            None => utf8(" "@) + utf8(self.path()) + utf8(" "@),
        }
    }
}

impl Segment for Cwd {
    open spec fn rendered(&self, before: StreamState) -> StreamState {
        before.set_bg(Color { r: 60, g: 60, b: 60 }).set_fg(
            Color { r: 210, g: 210, b: 210 },
        ).write_all(self.text())
    }

    proof fn keeps_the_output(&self, before: StreamState) {
    }

    fn write<W: ColorableStream>(&mut self, w: &mut ColoredStream<W>) -> (r: Result<
        (),
        std::io::Error,
    >)
        ensures
            *final(self) == *old(self),
    {
        w.set_bg(Color::from_rgb(60, 60, 60))?;
        w.set_fg(Color::from_rgb(210, 210, 210))?;
        let mut text: Vec<u8> = Vec::new();
        match &self.from_home {
            Some(rest) => {
                push_str(&mut text, " ~/");
                push_str(&mut text, rest.as_str());
                push_str(&mut text, " ");
            },
            None => {
                push_str(&mut text, " ");
                push_str(&mut text, self.path.as_str());
                push_str(&mut text, " ");
            },
        }
        w.write_all(text.as_slice())
    }
}

} // verus!
