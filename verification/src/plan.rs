//! From a program configuration to the requests that carry it out, in the
//! order in which they are made.

use crate::action::{action_views, Action, ActionView, MountAction, MountActionView};
use crate::bootstrap::{bootstrap, entry};
use crate::bytes::{ascii, copy, copy_from, literal, views};
use crate::request::{request_views, Request, RequestView};
use vstd::prelude::*;

verus! {

/// The permission bits of a directory that a setup action creates.
pub const DIRECTORY_MODE: u32 = 0o755;

impl MountActionView {
    /// The requests that apply the action.
    ///
    /// A mount is one request, with the four parameters of its filesystem.
    /// A directory is created with the mode `0755`. The root is changed in
    /// three steps: enter the new root; pivot, with the new root as the place
    /// to which the old one moves, both named `.`; detach what is mounted at
    /// `.`, which by then is the old root.
    pub open spec fn requests(self) -> Seq<RequestView> {
        match self {
            MountActionView::Mount { fs, dest } => seq![
                RequestView::Mount {
                    source: fs.source(),
                    target: dest,
                    fstype: fs.fstype(),
                    flags: fs.flags(),
                    data: fs.data(),
                },
            ],
            MountActionView::Mkdir { dest } => seq![
                RequestView::Mkdir { path: dest, mode: DIRECTORY_MODE },
            ],
            MountActionView::PivotRoot { dest } => seq![
                RequestView::Chdir { path: dest },
                RequestView::PivotRoot { new_root: ascii("."@), put_old: ascii("."@) },
                RequestView::Unmount { target: ascii("."@), detach: true },
            ],
        }
    }
}

/// The requests that apply the first `n` of `actions`, one action after the
/// other, each announced before its own requests.
pub open spec fn setup(actions: Seq<MountActionView>, n: nat) -> Seq<RequestView>
    decreases n,
{
    if n == 0 {
        Seq::empty()
    } else {
        setup(actions, (n - 1) as nat) + seq![RequestView::Announce { action: (n - 1) as nat }]
            + actions[n - 1].requests()
    }
}

impl ActionView {
    /// The request that hands control to the program. The argument vector is
    /// the one that was given, with nothing put before it.
    pub open spec fn handoff(self) -> RequestView {
        RequestView::Exec { path: self.exec_path, args: self.exec_args }
    }

    /// All the requests of one run, in order: entry into the sandbox, the
    /// setup actions, the handoff.
    pub open spec fn plan(self, uid: nat, gid: nat) -> Seq<RequestView> {
        entry(uid, gid) + setup(self.actions, self.actions.len()) + seq![self.handoff()]
    }
}

/// The requests of the first actions stand first: what applies the first
/// `fewer` actions is the beginning of what applies the first `more`.
pub proof fn lemma_setup_grows(actions: Seq<MountActionView>, fewer: nat, more: nat)
    requires
        fewer <= more,
    ensures
        setup(actions, fewer).len() <= setup(actions, more).len(),
        setup(actions, more).subrange(0, setup(actions, fewer).len() as int) == setup(
            actions,
            fewer,
        ),
    decreases more,
{
    if fewer < more {
        lemma_setup_grows(actions, fewer, (more - 1) as nat);
    }
}

/// The view of a list of requests with one more at its end.
pub proof fn lemma_views_push(requests: Seq<Request>, last: Request)
    ensures
        request_views(requests.push(last)) == request_views(requests).push(last@),
{
}

impl MountAction {
    /// Appends the requests that apply the action to `out`.
    pub fn push_requests(&self, out: &mut Vec<Request>)
        ensures
            request_views(final(out)@) == request_views(old(out)@) + self@.requests(),
    {
        match self {
            MountAction::Mount { fs, dest } => {
                let (source, fstype, flags, data) = fs.to_args();
                let request = Request::Mount { source, target: copy(dest), fstype, flags, data };
                proof {
                    lemma_views_push(out@, request);
                }
                out.push(request);
            },
            MountAction::Mkdir { dest } => {
                let request = Request::Mkdir { path: copy(dest), mode: DIRECTORY_MODE };
                proof {
                    lemma_views_push(out@, request);
                }
                out.push(request);
            },
            MountAction::PivotRoot { dest } => {
                proof {
                    reveal_strlit(".");
                }
                let enter = Request::Chdir { path: copy(dest) };
                let pivot = Request::PivotRoot { new_root: literal("."), put_old: literal(".") };
                let detach = Request::Unmount { target: literal("."), detach: true };
                proof {
                    lemma_views_push(out@, enter);
                    lemma_views_push(out@.push(enter), pivot);
                    lemma_views_push(out@.push(enter).push(pivot), detach);
                }
                out.push(enter);
                out.push(pivot);
                out.push(detach);
            },
        }
    }

    /// The requests that apply the action.
    pub fn requests(&self) -> (requests: Vec<Request>)
        ensures
            request_views(requests@) == self@.requests(),
    {
        let mut requests: Vec<Request> = Vec::new();
        self.push_requests(&mut requests);
        requests
    }
}

impl Action {
    /// The request that hands control to the program.
    pub fn handoff(&self) -> (request: Request)
        ensures
            request@ == self@.handoff(),
    {
        let args = copy_from(self.exec_args.as_slice(), 0);
        assert(views(args@) =~= views(self.exec_args@));
        Request::Exec { path: copy(&self.exec_path), args }
    }

    /// All the requests of one run, in order, for a caller with the user
    /// `uid` and the group `gid`.
    pub fn plan(&self, uid: u32, gid: u32) -> (requests: Vec<Request>)
        ensures
            request_views(requests@) == self@.plan(uid as nat, gid as nat),
    {
        let mut requests = bootstrap(uid, gid);
        let ghost head = request_views(requests@);
        let mut i: usize = 0;
        while i < self.actions.len()
            invariant
                i <= self.actions@.len(),
                request_views(requests@) == head + setup(self@.actions, i as nat),
            decreases self.actions@.len() - i,
        {
            let announce = Request::Announce { action: i };
            proof {
                lemma_views_push(requests@, announce);
            }
            requests.push(announce);
            self.actions[i].push_requests(&mut requests);
            i += 1;
        }
        let last = self.handoff();
        proof {
            lemma_views_push(requests@, last);
        }
        requests.push(last);
        requests
    }
}

} // verus!
