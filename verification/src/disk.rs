//! A model of the files that the requests act on, and of a caller that
//! carries the requests out against them until the work is over.
//!
//! The model exists to state what the library's steps add up to. It is made
//! of specifications only; nothing in it runs.

use vstd::prelude::*;

use crate::ensure::EnsureStepView;
use crate::error::IdentityError;
use crate::io::{ReplyView, RequestView};
use crate::keys::{KeyPairView, PublicKeyView};
use crate::retrieve::StepView;

verus! {

/// The files that exist, each path with the text of its file.
pub type Disk = Map<Seq<char>, Seq<char>>;

/// How a file operation goes.
pub enum Luck {
    /// It does what was asked.
    Good,
    /// It fails and leaves everything as it was.
    Bad,
    /// A write fails and leaves this text in the file.
    Torn(Seq<char>),
}

/// What lies outside the library during one piece of work: what making a key
/// pair comes to, should one be made, and how each request goes.
pub struct Surroundings {
    pub generated: Result<KeyPairView, IdentityError>,
    pub luck: spec_fn(RequestView) -> Luck,
}

/// What carrying out `request` does to the files, and the reply it earns. A
/// probe tells the truth. Directories are not part of the model: creating
/// them changes no file.
pub open spec fn carry_out(disk: Disk, request: RequestView, luck: Luck) -> (Disk, ReplyView) {
    match request {
        RequestView::Probe { path } => (
            disk,
            if disk.dom().contains(path) {
                ReplyView::Present
            } else {
                ReplyView::Absent
            },
        ),
        RequestView::CreateParentDirs { .. } => (
            disk,
            if luck is Good {
                ReplyView::Completed
            } else {
                ReplyView::Failed
            },
        ),
        RequestView::Write { path, contents } => match luck {
            Luck::Good => (disk.insert(path, contents), ReplyView::Completed),
            Luck::Bad => (disk, ReplyView::Failed),
            Luck::Torn(rest) => (disk.insert(path, rest), ReplyView::Failed),
        },
        RequestView::Read { path } => (
            disk,
            if luck is Good && disk.dom().contains(path) {
                ReplyView::Contents(disk[path])
            } else {
                ReplyView::Failed
            },
        ),
    }
}

impl EnsureStepView {
    /// How many requests are outstanding at most.
    pub open spec fn remaining(self) -> nat {
        match self {
            EnsureStepView::Perform(state, _) => state.remaining(),
            EnsureStepView::Done(_) => 0,
        }
    }
}

impl StepView {
    /// How many requests are outstanding at most.
    pub open spec fn remaining(self) -> nat {
        match self {
            StepView::Perform(state, _) => state.remaining(),
            StepView::Finished(_) => 0,
        }
    }
}

/// Ensuring a key pair from `step` on, with every request carried out against
/// the files: the files at the end, and the outcome.
pub open spec fn ensure_run(step: EnsureStepView, disk: Disk, around: Surroundings) -> (
    Disk,
    Result<(), IdentityError>,
)
    decreases step.remaining(),
{
    match step {
        EnsureStepView::Done(outcome) => (disk, outcome),
        EnsureStepView::Perform(state, request) => {
            let (after, reply) = carry_out(disk, request, (around.luck)(request));
            ensure_run(state.next(reply, around.generated), after, around)
        },
    }
}

/// A retrieval from `step` on, with every request carried out against the
/// files: the files at the end, and the outcome.
pub open spec fn retrieval_run(step: StepView, disk: Disk, around: Surroundings) -> (
    Disk,
    Result<PublicKeyView, IdentityError>,
)
    decreases step.remaining(),
{
    match step {
        StepView::Finished(outcome) => (disk, outcome),
        StepView::Perform(state, request) => {
            let (after, reply) = carry_out(disk, request, (around.luck)(request));
            retrieval_run(state.next(reply, around.generated), after, around)
        },
    }
}

} // verus!
