//! What the library asks of the outside world, and what the outside world
//! answers.
//!
//! The library never touches the disk and never starts a process. It names
//! the next thing to do as an [`Action`]; whoever drives it performs the
//! action and reports an [`Event`]. How each action is to be performed is part
//! of its description here.

use vstd::prelude::*;

verus! {

/// The settings of a recursive directory copy.
#[derive(Clone, Copy, Debug, PartialEq, Eq)]
pub struct TreeCopyOptions {
    /// Overwrite files that exist at the destination.
    pub overwrite: bool,
    /// Skip files that exist at the destination.
    pub skip_exist: bool,
    /// Bytes to copy between two progress reports.
    pub buffer_size: usize,
    /// Copy under a new name where the destination does not exist, in place of
    /// placing the source inside the destination.
    pub copy_inside: bool,
    /// Copy what the source holds, without making a directory for the source
    /// itself.
    pub content_only: bool,
    /// How many levels to descend; 0 descends all of them.
    pub depth: u64,
}

/// The settings a tree copy starts from: nothing that exists is overwritten
/// or skipped, the source is placed inside the destination under its own
/// name, and the whole tree is read.
pub open spec fn default_tree_copy() -> TreeCopyOptions {
    TreeCopyOptions {
        overwrite: false,
        skip_exist: false,
        buffer_size: 64000,
        copy_inside: false,
        content_only: false,
        depth: 0,
    }
}

/// Calls `fs_extra::dir::CopyOptions::new` and hands its six public fields
/// over, one for one. Trusted: that constructor sets `overwrite`,
/// `skip_exist`, `copy_inside` and `content_only` to `false`, `buffer_size`
/// to 64000 and `depth` to 0.
#[verifier::external_body]
pub(crate) fn new_tree_copy_options() -> (options: TreeCopyOptions)
    ensures
        options == default_tree_copy(),
{
    let made = fs_extra::dir::CopyOptions::new();
    TreeCopyOptions {
        overwrite: made.overwrite,
        skip_exist: made.skip_exist,
        buffer_size: made.buffer_size,
        copy_inside: made.copy_inside,
        content_only: made.content_only,
        depth: made.depth,
    }
}

/// One thing to do outside the library.
#[derive(Debug, PartialEq, Eq)]
pub enum Action {
    /// Confirm that the process runs with the privilege that checkpointing
    /// needs. Answered by `Completed` or `Failed`.
    ConfirmPrivilege,
    /// Look at `path`. Answered by `Probed`: whether anything exists there,
    /// and, if so, whether it is a directory that holds nothing.
    Probe { path: String },
    /// Make sure a directory exists at `path`, creating it when nothing is
    /// there.
    EnsureDir { path: String },
    /// Copy the directory `from` recursively to `to` under `options`.
    CopyTree { from: String, to: String, options: TreeCopyOptions },
    /// Copy the file `from` to the file `to`.
    CopyFile { from: String, to: String },
    /// Delete `path` and everything below it.
    RemoveTree { path: String },
    /// Start `program` with `args` and wait until it ends.
    Run { program: String, args: Vec<String> },
}

/// An [`Action`] as a mathematical value.
pub enum ActionView {
    ConfirmPrivilege,
    Probe { path: Seq<char> },
    EnsureDir { path: Seq<char> },
    CopyTree { from: Seq<char>, to: Seq<char>, options: TreeCopyOptions },
    CopyFile { from: Seq<char>, to: Seq<char> },
    RemoveTree { path: Seq<char> },
    Run { program: Seq<char>, args: Seq<Seq<char>> },
}

impl View for Action {
    type V = ActionView;

    open spec fn view(&self) -> ActionView {
        match self {
            Action::ConfirmPrivilege => ActionView::ConfirmPrivilege,
            Action::Probe { path } => ActionView::Probe { path: path@ },
            Action::EnsureDir { path } => ActionView::EnsureDir { path: path@ },
            Action::CopyTree { from, to, options } => ActionView::CopyTree {
                from: from@,
                to: to@,
                options: *options,
            },
            Action::CopyFile { from, to } => ActionView::CopyFile { from: from@, to: to@ },
            Action::RemoveTree { path } => ActionView::RemoveTree { path: path@ },
            Action::Run { program, args } => ActionView::Run {
                program: program@,
                args: args.deep_view(),
            },
        }
    }
}

fn clone_strings(items: &Vec<String>) -> (copy: Vec<String>)
    ensures
        copy.deep_view() == items.deep_view(),
{
    let mut copy: Vec<String> = Vec::new();
    let mut i: usize = 0;
    while i < items.len()
        invariant
            i <= items.len(),
            copy.len() == i,
            forall|j: int| 0 <= j < i ==> copy@[j]@ == items@[j]@,
        decreases items.len() - i,
    {
        copy.push(items[i].clone());
        i += 1;
    }
    assert(copy.deep_view() =~= items.deep_view());
    copy
}

impl Clone for Action {
    fn clone(&self) -> (copy: Self)
        ensures
            copy@ == self@,
    {
        match self {
            Action::ConfirmPrivilege => Action::ConfirmPrivilege,
            Action::Probe { path } => Action::Probe { path: path.clone() },
            Action::EnsureDir { path } => Action::EnsureDir { path: path.clone() },
            Action::CopyTree { from, to, options } => Action::CopyTree {
                from: from.clone(),
                to: to.clone(),
                options: *options,
            },
            Action::CopyFile { from, to } => Action::CopyFile {
                from: from.clone(),
                to: to.clone(),
            },
            Action::RemoveTree { path } => Action::RemoveTree { path: path.clone() },
            Action::Run { program, args } => Action::Run {
                program: program.clone(),
                args: clone_strings(args),
            },
        }
    }
}

/// Why an action did not do what was asked.
#[derive(Clone, Copy, Debug, PartialEq, Eq)]
pub enum Cause {
    /// What was to be read or started is not there.
    NotFound,
    /// The process may not read the source or write the destination.
    PermissionDenied,
    /// Something already stands where nothing should.
    AlreadyExists,
    /// A directory that had to be empty holds something.
    NotEmpty,
    /// The disk is full.
    StorageFull,
    /// The operation was interrupted.
    Interrupted,
    /// A path is not of the kind the action needs, or is not a valid path.
    InvalidPath,
    /// A program could not be started.
    NotStarted,
    /// A program ran and reported failure.
    Unsuccessful,
    /// The answer does not fit the action that was asked.
    Unexpected,
    /// Any other failure.
    Other,
}

/// The answer to an [`Action`].
#[derive(Clone, Copy, Debug, PartialEq, Eq)]
pub enum Event {
    /// The answer to `Probe`: whether anything is at the path, and whether it
    /// is a directory that holds nothing. `empty` is read only where
    /// `present` is true.
    Probed { present: bool, empty: bool },
    /// The action was carried out in full.
    Completed,
    /// The action was not carried out, or not in full.
    Failed(Cause),
}

} // verus!
