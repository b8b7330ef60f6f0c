//! Filesystem descriptors: the kinds of filesystem that can be mounted, and
//! the four parameters of the mount operation that each kind stands for.

use crate::bytes::{append, ascii, copy, literal};
use crate::flags::{bind_flags, bind_mount, flag_set, plain_flags, plain_mount};
use nix::mount::MsFlags;
use vstd::prelude::*;

verus! {

/// A filesystem to mount. Every field is a byte string taken as it was given.
#[derive(Debug, PartialEq, Eq)]
pub enum Filesystem {
    /// An existing directory tree, made visible at another place.
    Bind { src: Vec<u8> },
    /// A fresh filesystem in memory.
    Tmpfs,
    /// A read-only tree below a writable one, with a directory for bookkeeping.
    Overlay { lower: Vec<u8>, upper: Vec<u8>, work: Vec<u8> },
    /// Any filesystem, with source, type and options chosen by the caller.
    Generic { fstype: Vec<u8>, src: Vec<u8>, data: Vec<u8> },
}

/// A filesystem descriptor as a mathematical value.
pub enum FilesystemView {
    Bind { src: Seq<u8> },
    Tmpfs,
    Overlay { lower: Seq<u8>, upper: Seq<u8>, work: Seq<u8> },
    Generic { fstype: Seq<u8>, src: Seq<u8>, data: Seq<u8> },
}

/// The options of an overlay mount: the three directories, each behind its
/// key, separated by commas, with nothing escaped.
pub open spec fn overlay_options(lower: Seq<u8>, upper: Seq<u8>, work: Seq<u8>) -> Seq<u8> {
    ascii("lowerdir="@) + lower + ascii(",upperdir="@) + upper + ascii(",workdir="@) + work
}

impl FilesystemView {
    /// The source of the mount, where the kind has one.
    pub open spec fn source(self) -> Option<Seq<u8>> {
        match self {
            FilesystemView::Bind { src } => Some(src),
            FilesystemView::Tmpfs => None,
            FilesystemView::Overlay { .. } => Some(ascii("overlay"@)),
            FilesystemView::Generic { src, .. } => Some(src),
        }
    }

    /// The filesystem type, where the kind names one.
    pub open spec fn fstype(self) -> Option<Seq<u8>> {
        match self {
            FilesystemView::Bind { .. } => None,
            FilesystemView::Tmpfs => Some(ascii("tmpfs"@)),
            FilesystemView::Overlay { .. } => Some(ascii("overlay"@)),
            FilesystemView::Generic { fstype, .. } => Some(fstype),
        }
    }

    /// The mount flags: those of a recursive private bind mount for `Bind`,
    /// none for every other kind.
    pub open spec fn flags(self) -> Set<u64> {
        match self {
            FilesystemView::Bind { .. } => bind_flags(),
            _ => plain_flags(),
        }
    }

    /// The options handed to the filesystem, where the kind has any.
    pub open spec fn data(self) -> Option<Seq<u8>> {
        match self {
            FilesystemView::Bind { .. } => None,
            FilesystemView::Tmpfs => None,
            FilesystemView::Overlay { lower, upper, work } => Some(
                overlay_options(lower, upper, work),
            ),
            FilesystemView::Generic { data, .. } => Some(data),
        }
    }
}

impl View for Filesystem {
    type V = FilesystemView;

    open spec fn view(&self) -> FilesystemView {
        match self {
            Filesystem::Bind { src } => FilesystemView::Bind { src: src@ },
            Filesystem::Tmpfs => FilesystemView::Tmpfs,
            Filesystem::Overlay { lower, upper, work } => FilesystemView::Overlay {
                lower: lower@,
                upper: upper@,
                work: work@,
            },
            Filesystem::Generic { fstype, src, data } => FilesystemView::Generic {
                fstype: fstype@,
                src: src@,
                data: data@,
            },
        }
    }
}

/// An optional byte string as a mathematical value.
pub open spec fn opt_view(bytes: Option<Vec<u8>>) -> Option<Seq<u8>> {
    match bytes {
        Some(b) => Some(b@),
        None => None,
    }
}

impl Filesystem {
    /// The four parameters of the mount operation: source, filesystem type,
    /// flags and options.
    pub fn to_args(&self) -> (args: (Option<Vec<u8>>, Option<Vec<u8>>, MsFlags, Option<Vec<u8>>))
        ensures
            opt_view(args.0) == self@.source(),
            opt_view(args.1) == self@.fstype(),
            flag_set(args.2) == self@.flags(),
            opt_view(args.3) == self@.data(),
    {
        match self {
            Filesystem::Bind { src } => (Some(copy(src)), None, bind_mount(), None),
            Filesystem::Tmpfs => {
                proof {
                    reveal_strlit("tmpfs");
                }
                (None, Some(literal("tmpfs")), plain_mount(), None)
            },
            Filesystem::Overlay { lower, upper, work } => {
                proof {
                    reveal_strlit("overlay");
                    reveal_strlit("lowerdir=");
                    reveal_strlit(",upperdir=");
                    reveal_strlit(",workdir=");
                }
                let mut data = literal("lowerdir=");
                append(&mut data, lower);
                append(&mut data, &literal(",upperdir="));
                append(&mut data, upper);
                append(&mut data, &literal(",workdir="));
                append(&mut data, work);
                (Some(literal("overlay")), Some(literal("overlay")), plain_mount(), Some(data))
            },
            Filesystem::Generic { fstype, src, data } => (
                Some(copy(src)),
                Some(copy(fstype)),
                plain_mount(),
                Some(copy(data)),
            ),
        }
    }

    /// The source of the mount, where the kind has one.
    pub fn to_source(&self) -> (source: Option<Vec<u8>>)
        ensures
            opt_view(source) == self@.source(),
    {
        self.to_args().0
    }

    /// The filesystem type, where the kind names one.
    pub fn to_fstype(&self) -> (fstype: Option<Vec<u8>>)
        ensures
            opt_view(fstype) == self@.fstype(),
    {
        self.to_args().1
    }

    /// The mount flags.
    pub fn to_flags(&self) -> (flags: MsFlags)
        ensures
            flag_set(flags) == self@.flags(),
    {
        self.to_args().2
    }

    /// The options handed to the filesystem, where the kind has any.
    pub fn to_data(&self) -> (data: Option<Vec<u8>>)
        ensures
            opt_view(data) == self@.data(),
    {
        self.to_args().3
    }
}

} // verus!
