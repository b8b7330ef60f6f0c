//! Setup actions and the program configuration that a command line stands for.

use crate::bytes::views;
use crate::filesystem::{Filesystem, FilesystemView};
use vstd::prelude::*;

verus! {

/// One operation on the filesystem namespace.
#[derive(Debug, PartialEq, Eq)]
pub enum MountAction {
    /// Mount a filesystem at `dest`.
    Mount { fs: Filesystem, dest: Vec<u8> },
    /// Create the directory `dest`, unless it is there already.
    Mkdir { dest: Vec<u8> },
    /// Make `dest` the root of the filesystem and let go of the old root.
    PivotRoot { dest: Vec<u8> },
}

/// A setup action as a mathematical value.
pub enum MountActionView {
    Mount { fs: FilesystemView, dest: Seq<u8> },
    Mkdir { dest: Seq<u8> },
    PivotRoot { dest: Seq<u8> },
}

impl View for MountAction {
    type V = MountActionView;

    open spec fn view(&self) -> MountActionView {
        match self {
            MountAction::Mount { fs, dest } => MountActionView::Mount { fs: fs@, dest: dest@ },
            MountAction::Mkdir { dest } => MountActionView::Mkdir { dest: dest@ },
            MountAction::PivotRoot { dest } => MountActionView::PivotRoot { dest: dest@ },
        }
    }
}

/// A list of setup actions as a mathematical value.
pub open spec fn action_views(actions: Seq<MountAction>) -> Seq<MountActionView> {
    actions.map_values(|action: MountAction| action@)
}

/// What one run does: the setup actions in the order in which they are
/// applied, then the program to run and the arguments it is given.
#[derive(Debug, PartialEq, Eq)]
pub struct Action {
    pub actions: Vec<MountAction>,
    pub exec_path: Vec<u8>,
    pub exec_args: Vec<Vec<u8>>,
}

/// A program configuration as a mathematical value.
pub struct ActionView {
    pub actions: Seq<MountActionView>,
    pub exec_path: Seq<u8>,
    pub exec_args: Seq<Seq<u8>>,
}

impl View for Action {
    type V = ActionView;

    open spec fn view(&self) -> ActionView {
        ActionView {
            actions: action_views(self.actions@),
            exec_path: self.exec_path@,
            exec_args: views(self.exec_args@),
        }
    }
}

} // verus!
