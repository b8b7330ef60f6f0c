//! Requests to the operating system. The library hands them out one at a
//! time; the caller performs each and reports how it ended.

use crate::bytes::views;
use crate::filesystem::opt_view;
use crate::flags::flag_set;
use nix::mount::MsFlags;
use vstd::prelude::*;

verus! {

/// One thing to ask of the operating system.
#[derive(Debug, PartialEq, Eq)]
pub enum Request {
    /// Leave the namespaces of the caller for new ones, all in one call.
    Unshare { mount: bool, user: bool },
    /// Write `contents` to the file at `path`.
    WriteFile { path: Vec<u8>, contents: Vec<u8> },
    /// Print a line that names the setup action with this index; what
    /// follows, up to the next such request, applies that action.
    Announce { action: usize },
    /// Mount a filesystem at `target`.
    Mount {
        source: Option<Vec<u8>>,
        target: Vec<u8>,
        fstype: Option<Vec<u8>>,
        flags: MsFlags,
        data: Option<Vec<u8>>,
    },
    /// Create the directory `path` with the permission bits `mode`.
    Mkdir { path: Vec<u8>, mode: u32 },
    /// Change the working directory to `path`.
    Chdir { path: Vec<u8> },
    /// Make `new_root` the root and move the old root to `put_old`.
    PivotRoot { new_root: Vec<u8>, put_old: Vec<u8> },
    /// Unmount `target`; with `detach`, at once and even while it is in use.
    Unmount { target: Vec<u8>, detach: bool },
    /// Replace the running program by the one at `path`, with `args` as its
    /// whole argument vector.
    Exec { path: Vec<u8>, args: Vec<Vec<u8>> },
}

/// A request as a mathematical value.
pub enum RequestView {
    Unshare { mount: bool, user: bool },
    WriteFile { path: Seq<u8>, contents: Seq<u8> },
    Announce { action: nat },
    Mount {
        source: Option<Seq<u8>>,
        target: Seq<u8>,
        fstype: Option<Seq<u8>>,
        flags: Set<u64>,
        data: Option<Seq<u8>>,
    },
    Mkdir { path: Seq<u8>, mode: u32 },
    Chdir { path: Seq<u8> },
    PivotRoot { new_root: Seq<u8>, put_old: Seq<u8> },
    Unmount { target: Seq<u8>, detach: bool },
    Exec { path: Seq<u8>, args: Seq<Seq<u8>> },
}

impl View for Request {
    type V = RequestView;

    open spec fn view(&self) -> RequestView {
        match self {
            Request::Unshare { mount, user } => RequestView::Unshare { mount: *mount, user: *user },
            Request::WriteFile { path, contents } => RequestView::WriteFile {
                path: path@,
                contents: contents@,
            },
            Request::Announce { action } => RequestView::Announce { action: *action as nat },
            Request::Mount { source, target, fstype, flags, data } => RequestView::Mount {
                source: opt_view(*source),
                target: target@,
                fstype: opt_view(*fstype),
                flags: flag_set(*flags),
                data: opt_view(*data),
            },
            Request::Mkdir { path, mode } => RequestView::Mkdir { path: path@, mode: *mode },
            Request::Chdir { path } => RequestView::Chdir { path: path@ },
            Request::PivotRoot { new_root, put_old } => RequestView::PivotRoot {
                new_root: new_root@,
                put_old: put_old@,
            },
            Request::Unmount { target, detach } => RequestView::Unmount {
                target: target@,
                detach: *detach,
            },
            Request::Exec { path, args } => RequestView::Exec { path: path@, args: views(args@) },
        }
    }
}

/// A list of requests as a mathematical value.
pub open spec fn request_views(requests: Seq<Request>) -> Seq<RequestView> {
    requests.map_values(|request: Request| request@)
}

/// How a request ended.
#[derive(Clone, Copy, Debug, PartialEq, Eq)]
pub enum Outcome {
    /// It was carried out.
    Done,
    /// It failed because what it was to create is there already.
    AlreadyExists,
    /// It failed for any other reason.
    Failed,
}

/// Whether the run goes on after `request` ended with `outcome`. It does
/// after success, and after a directory that was to be created was found to
/// exist. Every other failure ends the run.
pub open spec fn accepts(request: RequestView, outcome: Outcome) -> bool {
    outcome is Done || (outcome is AlreadyExists && request is Mkdir)
}

impl Request {
    /// Whether the run goes on after this request ended with `outcome`.
    pub fn tolerates(&self, outcome: Outcome) -> (goes_on: bool)
        ensures
            goes_on == accepts(self@, outcome),
    {
        match outcome {
            Outcome::Done => true,
            Outcome::AlreadyExists => match self {
                Request::Mkdir { .. } => true,
                _ => false,
            },
            Outcome::Failed => false,
        }
    }
}

} // verus!
