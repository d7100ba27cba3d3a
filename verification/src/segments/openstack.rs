//! The OpenStack project that the command line is set up for.

use vstd::prelude::*;
use crate::color::Color;
use crate::colored_stream::{ColoredStream, StreamState};
use crate::segments::Segment;
use crate::sink::ColorableStream;
use crate::wire::{push_str, utf8};

verus! {

/// The name of the project, where one is set.
pub struct Openstack {
    project_name: Option<String>,
}

impl Openstack {
    /// The name that is shown; `None` where none is set.
    pub closed spec fn project_name(&self) -> Option<String> {
        self.project_name
    }

    /// The segment of the project, or, where no project is set, of the
    /// tenant, which is the older word for it.
    pub fn new(project: Option<String>, tenant: Option<String>) -> (segment: Self)
        ensures
            segment.project_name() == if project is Some {
                project
            } else {
                tenant
            },
    {
        match project {
            Some(name) => Self { project_name: Some(name) },
            None => Self { project_name: tenant },
        }
    }
}

impl Segment for Openstack {
    /// The name of the project on blue; nothing at all where none is set.
    open spec fn rendered(&self, before: StreamState) -> StreamState {
        match self.project_name() {
            Some(name) => before.set_bg(Color { r: 80, g: 80, b: 255 }).set_fg(
                Color { r: 255, g: 255, b: 255 },
            ).write_all(utf8(" ⏹  "@) + utf8(name@) + utf8(" "@)),
            None => before,
        }
    }

    proof fn keeps_the_output(&self, before: StreamState) {
    }

    fn write<W: ColorableStream>(&mut self, w: &mut ColoredStream<W>) -> (r: Result<
        (),
        std::io::Error,
    >)
        ensures
            *final(self) == *old(self),
    {
        match &self.project_name {
            Some(name) => {
                w.set_bg(Color::from_rgb(80, 80, 255))?;
                w.set_fg(Color::from_rgb(255, 255, 255))?;
                let mut text: Vec<u8> = Vec::new();
                push_str(&mut text, " ⏹  ");
                push_str(&mut text, name.as_str());
                push_str(&mut text, " ");
                w.write_all(text.as_slice())
            },
            None => Ok(()),
        }
    }
}

} // verus!
