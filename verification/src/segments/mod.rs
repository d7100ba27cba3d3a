//! The segments of the line, and what makes something a segment.

use vstd::prelude::*;
use crate::colored_stream::{stepped, ColoredStream, StreamState};
use crate::sink::ColorableStream;

pub mod cwd;
pub mod exitcode;
pub mod git;
pub mod hostname;
pub mod k8s;
pub mod openstack;
pub mod time;
pub mod user;

pub use self::cwd::Cwd;
pub use self::exitcode::ExitCode;
pub use self::git::Git;
pub use self::hostname::Hostname;
pub use self::k8s::K8s;
pub use self::openstack::Openstack;
pub use self::time::Time;
pub use self::user::User;

verus! {

/// One independently rendered, coloured unit of the line.
///
/// A segment writes itself through the stream and through nothing else, so
/// what it does is a function of the state it finds the stream in. It may
/// write nothing: that is no error.
pub trait Segment {
    /// The state in which the segment leaves a stream that it found in
    /// `before`, when the sink takes every write.
    spec fn rendered(&self, before: StreamState) -> StreamState;

    /// A segment only adds to the output.
    proof fn keeps_the_output(&self, before: StreamState)
        ensures
            before.out.is_prefix_of(self.rendered(before).out),
    ;

    /// Writes the segment.
    fn write<W: ColorableStream>(&mut self, w: &mut ColoredStream<W>) -> (r: Result<
        (),
        std::io::Error,
    >)
        ensures
            stepped(*old(w), *final(w), r, old(self).rendered(old(w)@)),
    ;
}

} // verus!
