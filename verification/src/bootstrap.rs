//! Entry into the sandbox: new namespaces, and an identity mapping that lets
//! the caller keep the user and group that it had outside.

use crate::bytes::{append, ascii, decimal, literal, push_decimal};
use crate::request::{request_views, Request, RequestView};
use vstd::prelude::*;

verus! {

/// The line that maps one identifier to itself: the identifier inside, the
/// identifier outside, and the length of the range, which is one.
pub open spec fn identity_map(id: nat) -> Seq<u8> {
    decimal(id) + ascii(" "@) + decimal(id) + ascii(" 1"@)
}

/// The requests that enter the sandbox for a caller with the user `uid` and
/// the group `gid`: new mount and user namespaces in one call, then no more
/// changing of supplementary groups, then one mapping for the user and one
/// for the group.
pub open spec fn entry(uid: nat, gid: nat) -> Seq<RequestView> {
    seq![
        RequestView::Unshare { mount: true, user: true },
        RequestView::WriteFile {
            path: ascii("/proc/self/setgroups"@),
            contents: ascii("deny"@),
        },
        RequestView::WriteFile { path: ascii("/proc/self/uid_map"@), contents: identity_map(uid) },
        RequestView::WriteFile { path: ascii("/proc/self/gid_map"@), contents: identity_map(gid) },
    ]
}

/// The line that maps `id` to itself.
pub fn identity_line(id: u32) -> (line: Vec<u8>)
    ensures
        line@ == identity_map(id as nat),
{
    proof {
        reveal_strlit(" ");
        reveal_strlit(" 1");
    }
    let mut line: Vec<u8> = Vec::new();
    push_decimal(&mut line, id);
    append(&mut line, &literal(" "));
    push_decimal(&mut line, id);
    append(&mut line, &literal(" 1"));
    line
}

/// The requests that enter the sandbox. `uid` and `gid` are those of the
/// caller, read before any of the requests is performed.
pub fn bootstrap(uid: u32, gid: u32) -> (requests: Vec<Request>)
    ensures
        request_views(requests@) == entry(uid as nat, gid as nat),
{
    proof {
        reveal_strlit("/proc/self/setgroups");
        reveal_strlit("deny");
        reveal_strlit("/proc/self/uid_map");
        reveal_strlit("/proc/self/gid_map");
    }
    let mut requests: Vec<Request> = Vec::new();
    requests.push(Request::Unshare { mount: true, user: true });
    requests.push(
        Request::WriteFile { path: literal("/proc/self/setgroups"), contents: literal("deny") },
    );
    requests.push(
        Request::WriteFile { path: literal("/proc/self/uid_map"), contents: identity_line(uid) },
    );
    requests.push(
        Request::WriteFile { path: literal("/proc/self/gid_map"), contents: identity_line(gid) },
    );
    requests
}

} // verus!
