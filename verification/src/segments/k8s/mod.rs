//! The Kubernetes cluster that the command line is set up for, and the
//! cluster that manages it.

use vstd::prelude::*;
use crate::color::Color;
use crate::colored_stream::{start_of_a_start, stepped, ColoredStream, StreamState};
use crate::segments::k8s::kubeconfig_error::ConfigError;
use crate::segments::Segment;
use crate::sink::ColorableStream;
use crate::text::{strip_prefix, strip_suffix, trim, trimmed};
use crate::wire::{push_str, utf8};

pub mod kubeconfig;
pub mod kubeconfig_error;

verus! {

/// What the address of a managing cluster starts with.
pub open spec fn manager_prefix() -> Seq<char> {
    "https://kube."@
}

/// What the address of a managing cluster ends with.
pub open spec fn manager_suffix() -> Seq<char> {
    ".caas.in.pan-net.eu:6443"@
}

/// The name that a managing cluster is shown by, where `trimmed` is its
/// address without the white space at the ends: what stands between the
/// usual start and the usual end of such an address, and the address as it
/// is where it is not of that form.
pub open spec fn manager_name_of(server: Seq<char>, trimmed: Seq<char>) -> Seq<char> {
    if manager_prefix().is_prefix_of(trimmed) && manager_suffix().is_suffix_of(
        trimmed.skip(manager_prefix().len() as int),
    ) {
        trimmed.subrange(manager_prefix().len() as int, trimmed.len() - manager_suffix().len())
    } else {
        server
    }
}

/// The name that the managing cluster at `server` is shown by, from the
/// address and the address without the white space at its ends.
pub fn manager_name_from(server: String, trimmed: &str) -> (name: String)
    ensures
        name@ == manager_name_of(server@, trimmed@),
{
    match strip_prefix(trimmed, "https://kube.") {
        Some(rest) => match strip_suffix(rest.as_str(), ".caas.in.pan-net.eu:6443") {
            Some(name) => {
                assert(name@ == manager_name_of(server@, trimmed@)) by {
                    let p = manager_prefix().len() as int;
                    let s = manager_suffix().len() as int;
                    assert(trimmed@.skip(p).take(trimmed@.skip(p).len() - s) =~= trimmed@.subrange(
                        p,
                        trimmed@.len() - s,
                    ));
                }
                name
            },
            None => server,
        },
        None => server,
    }
}

/// The name that the managing cluster at `server` is shown by.
pub fn manager_name(server: String) -> (name: String)
    ensures
        name@ == manager_name_of(server@, trimmed(server@)),
{
    let without_space = trim(server.as_str());
    manager_name_from(server, without_space.as_str())
}

/// The cluster that the command line is set up for and the cluster that
/// manages it, each by its address or name, or by the error that kept it from
/// being found, or not at all.
pub struct K8s {
    server_name: Option<Result<String, ConfigError>>,
    mgr_name: Option<Result<String, ConfigError>>,
}

/// The cluster to show: the one of the configuration that was asked for,
/// found or not; without such a configuration, the one of the default
/// configuration, where that was found.
pub open spec fn server_shown(
    configured: Option<Result<String, ConfigError>>,
    fallback: Option<Result<String, ConfigError>>,
) -> Option<Result<String, ConfigError>> {
    match configured {
        Some(found) => Some(found),
        None => match fallback {
            Some(Ok(server)) => Some(Ok(server)),
            _ => None,
        },
    }
}

impl K8s {
    /// The address of the cluster, or why it was not found; `None` where
    /// there is nothing to show.
    pub closed spec fn server_name(&self) -> Option<Result<String, ConfigError>> {
        self.server_name
    }

    /// The name of the managing cluster, or why it was not found; `None`
    /// where there is nothing to show.
    pub closed spec fn mgr_name(&self) -> Option<Result<String, ConfigError>> {
        self.mgr_name
    }

    /// The segment for what was found: `configured` in the configuration
    /// that was asked for, `fallback` in the default one, `manager` in that
    /// of the managing cluster; each `None` where there is no such
    /// configuration.
    pub fn new(
        configured: Option<Result<String, ConfigError>>,
        fallback: Option<Result<String, ConfigError>>,
        manager: Option<Result<String, ConfigError>>,
    ) -> (segment: Self)
        ensures
            segment.server_name() == server_shown(configured, fallback),
            match manager {
                Some(Ok(server)) => segment.mgr_name() matches Some(Ok(name)) && name@
                    == manager_name_of(server@, trimmed(server@)),
                Some(Err(error)) => segment.mgr_name() == Some(
                    Err::<String, ConfigError>(error),
                ),
                None => segment.mgr_name() is None,
            },
    {
        let server_name = match configured {
            Some(found) => Some(found),
            None => match fallback {
                Some(Ok(server)) => Some(Ok(server)),
                _ => None,
            },
        };
        let mgr_name = match manager {
            Some(Ok(server)) => Some(Ok(manager_name(server))),
            Some(Err(error)) => Some(Err(error)),
            None => None,
        };
        K8s { server_name, mgr_name }
    }

    /// The segment that shows just this.
    pub fn from_names(
        server_name: Option<Result<String, ConfigError>>,
        mgr_name: Option<Result<String, ConfigError>>,
    ) -> (segment: Self)
        ensures
            segment.server_name() == server_name,
            segment.mgr_name() == mgr_name,
    {
        K8s { server_name, mgr_name }
    }

    /// The badge of the cluster.
    pub open spec fn server_rendered(&self, before: StreamState) -> StreamState {
        match self.server_name() {
            Some(Ok(server)) => before.set_bg(Color { r: 10, g: 10, b: 200 }).set_fg(
                Color { r: 230, g: 230, b: 230 },
            ).write_all(utf8(" ☸  "@) + utf8(server@) + utf8(" "@)),
            Some(Err(_)) => before.set_bg(Color { r: 255, g: 0, b: 0 }).set_fg(
                Color { r: 230, g: 230, b: 230 },
            ).write_all(utf8(" ☠ "@)),
            None => before,
        }
    }

    /// The badge of the managing cluster, a segment of its own.
    pub open spec fn manager_rendered(&self, before: StreamState) -> StreamState {
        match self.mgr_name() {
            Some(Ok(name)) => before.start_segment(Color { r: 180, g: 180, b: 0 }).set_fg(
                Color::black(),
            ).write_all(utf8(" "@) + utf8(name@) + utf8(" "@)),
            Some(Err(_)) => before.start_segment(Color { r: 255, g: 0, b: 0 }).write_all(
                utf8(" ??? "@),
            ),
            None => before,
        }
    }
}

impl K8s {
    /// The badge of the managing cluster only adds to the output.
    pub proof fn manager_keeps_the_output(&self, before: StreamState)
        ensures
            before.out.is_prefix_of(self.manager_rendered(before).out),
    {
    }

    /// The badge of the cluster only adds to the output.
    pub proof fn server_keeps_the_output(&self, before: StreamState)
        ensures
            before.out.is_prefix_of(self.server_rendered(before).out),
    {
    }

    fn write_server<W: ColorableStream>(&self, w: &mut ColoredStream<W>) -> (r: Result<
        (),
        std::io::Error,
    >)
        ensures
            stepped(*old(w), *final(w), r, self.server_rendered(old(w)@)),
    {
        match &self.server_name {
            Some(Ok(server)) => {
                w.set_bg(Color::from_rgb(10, 10, 200))?;
                w.set_fg(Color::from_rgb(230, 230, 230))?;
                let mut text: Vec<u8> = Vec::new();
                push_str(&mut text, " ☸  ");
                push_str(&mut text, server.as_str());
                push_str(&mut text, " ");
                w.write_all(text.as_slice())
            },
            Some(Err(_)) => {
                w.set_bg(Color::from_rgb(255, 0, 0))?;
                w.set_fg(Color::from_rgb(230, 230, 230))?;
                w.write_str(" ☠ ")
            },
            None => Ok(()),
        }
    }

    fn write_manager<W: ColorableStream>(&self, w: &mut ColoredStream<W>) -> (r: Result<
        (),
        std::io::Error,
    >)
        ensures
            stepped(*old(w), *final(w), r, self.manager_rendered(old(w)@)),
    {
        match &self.mgr_name {
            Some(Ok(name)) => {
                w.start_segment(Color::from_rgb(180, 180, 0))?;
                w.set_fg(Color::from_rgb(0, 0, 0))?;
                let mut text: Vec<u8> = Vec::new();
                push_str(&mut text, " ");
                push_str(&mut text, name.as_str());
                push_str(&mut text, " ");
                w.write_all(text.as_slice())
            },
            Some(Err(_)) => {
                w.start_segment(Color::from_rgb(255, 0, 0))?;
                w.write_str(" ??? ")
            },
            None => Ok(()),
        }
    }
}

impl Segment for K8s {
    /// The badge of the cluster, then that of the managing cluster; nothing
    /// for what there is no configuration of.
    open spec fn rendered(&self, before: StreamState) -> StreamState {
        self.manager_rendered(self.server_rendered(before))
    }

    proof fn keeps_the_output(&self, before: StreamState) {
        self.server_keeps_the_output(before);
        self.manager_keeps_the_output(self.server_rendered(before));
        start_of_a_start(
            before.out,
            self.server_rendered(before).out,
            self.rendered(before).out,
        );
    }

    fn write<W: ColorableStream>(&mut self, w: &mut ColoredStream<W>) -> (r: Result<
        (),
        std::io::Error,
    >)
        ensures
            *final(self) == *old(self),
    {
        broadcast use start_of_a_start;

        proof {
            self.manager_keeps_the_output(self.server_rendered(w@));
        }
        self.write_server(w)?;
        self.write_manager(w)
    }
}

} // verus!
