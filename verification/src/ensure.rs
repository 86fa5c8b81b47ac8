//! Making sure that a key pair exists: generated once, on first use, and
//! never touched again.
//!
//! An `Ensure` is the state between two file operations. Absence of the
//! private key file is the only thing that makes the library generate a key
//! pair; any other answer to the probe is read as an identity that is already
//! established, and nothing is written.

use vstd::prelude::*;

use crate::error::{IdentityError, KeyFile};
use crate::io::{Reply, ReplyView, Request, RequestView};
use crate::keys::{
    generate_keypair,
    pair_outcome_view,
    possible_generation,
    KeyPairText,
    KeyPairView,
};
use crate::paths::{public_key_path, public_key_path_of};

verus! {

/// Where the work of ensuring a key pair stands. Each state waits for the
/// answer to one request; `path` is the private key's path throughout.
#[derive(Debug)]
pub enum Ensure {
    /// Waiting to learn whether the private key file exists.
    Probing { path: String },
    /// A key pair was made; waiting for the directories above `path`.
    CreatingDirs { path: String, keys: KeyPairText },
    /// Waiting for the private key to be written; `public` is still to go.
    WritingPrivate { path: String, public: String },
    /// Waiting for the public key to be written.
    WritingPublic { path: String },
}

/// An `Ensure` as contracts see it.
pub enum EnsureView {
    Probing { path: Seq<char> },
    CreatingDirs { path: Seq<char>, keys: KeyPairView },
    WritingPrivate { path: Seq<char>, public: Seq<char> },
    WritingPublic { path: Seq<char> },
}

impl View for Ensure {
    type V = EnsureView;

    open spec fn view(&self) -> EnsureView {
        match *self {
            Ensure::Probing { path } => EnsureView::Probing { path: path@ },
            Ensure::CreatingDirs { path, keys } => EnsureView::CreatingDirs {
                path: path@,
                keys: keys@,
            },
            Ensure::WritingPrivate { path, public } => EnsureView::WritingPrivate {
                path: path@,
                public: public@,
            },
            Ensure::WritingPublic { path } => EnsureView::WritingPublic { path: path@ },
        }
    }
}

/// What comes next: one more request, or the end.
#[derive(Debug)]
pub enum EnsureStep {
    /// Carry out the request and resume the state with its outcome.
    Perform(Ensure, Request),
    /// The work is over: the key pair exists, or it could not be made.
    Done(Result<(), IdentityError>),
}

/// An `EnsureStep` as contracts see it.
pub enum EnsureStepView {
    Perform(EnsureView, RequestView),
    Done(Result<(), IdentityError>),
}

impl View for EnsureStep {
    type V = EnsureStepView;

    open spec fn view(&self) -> EnsureStepView {
        match *self {
            EnsureStep::Perform(state, request) => EnsureStepView::Perform(state@, request@),
            EnsureStep::Done(outcome) => EnsureStepView::Done(outcome),
        }
    }
}

/// The first step for the private key at `path`: probe it.
pub open spec fn ensure_start(path: Seq<char>) -> EnsureStepView {
    EnsureStepView::Perform(EnsureView::Probing { path }, RequestView::Probe { path })
}

/// The step after the probe found nothing and making a key pair came to
/// `generated`: with a pair, create the directories; without, give up.
pub open spec fn ensure_after_generation(
    path: Seq<char>,
    generated: Result<KeyPairView, IdentityError>,
) -> EnsureStepView {
    match generated {
        Ok(keys) => EnsureStepView::Perform(
            EnsureView::CreatingDirs { path, keys },
            RequestView::CreateParentDirs { path },
        ),
        Err(e) => EnsureStepView::Done(Err(e)),
    }
}

impl EnsureView {
    /// The private key's path.
    pub open spec fn path(self) -> Seq<char> {
        match self {
            EnsureView::Probing { path } => path,
            EnsureView::CreatingDirs { path, .. } => path,
            EnsureView::WritingPrivate { path, .. } => path,
            EnsureView::WritingPublic { path } => path,
        }
    }

    /// How many requests are outstanding at most, this state's included.
    pub open spec fn remaining(self) -> nat {
        match self {
            EnsureView::Probing { .. } => 4,
            EnsureView::CreatingDirs { .. } => 3,
            EnsureView::WritingPrivate { .. } => 2,
            EnsureView::WritingPublic { .. } => 1,
        }
    }

    /// The step that follows `reply`. `generated` is what making a key pair
    /// comes to; it is consulted only when a probe is answered `Absent`.
    ///
    /// In every state one reply leads on, and any other ends the work with
    /// the failure of the request that was outstanding. The probe is the
    /// exception: only `Absent` leads to a new key pair, and any other reply
    /// ends the work with nothing written.
    pub open spec fn next(
        self,
        reply: ReplyView,
        generated: Result<KeyPairView, IdentityError>,
    ) -> EnsureStepView {
        match self {
            EnsureView::Probing { path } => match reply {
                ReplyView::Absent => ensure_after_generation(path, generated),
                _ => EnsureStepView::Done(Ok(())),
            },
            EnsureView::CreatingDirs { path, keys } => match reply {
                ReplyView::Completed => EnsureStepView::Perform(
                    EnsureView::WritingPrivate { path, public: keys.public },
                    RequestView::Write { path, contents: keys.private },
                ),
                _ => EnsureStepView::Done(Err(IdentityError::DirectoryCreation)),
            },
            EnsureView::WritingPrivate { path, public } => match reply {
                ReplyView::Completed => EnsureStepView::Perform(
                    EnsureView::WritingPublic { path },
                    RequestView::Write { path: public_key_path_of(path), contents: public },
                ),
                _ => EnsureStepView::Done(Err(IdentityError::Write(KeyFile::Private))),
            },
            EnsureView::WritingPublic { path } => match reply {
                ReplyView::Completed => EnsureStepView::Done(Ok(())),
                _ => EnsureStepView::Done(Err(IdentityError::Write(KeyFile::Public))),
            },
        }
    }

    /// Whether the step that follows `reply` depends on a new key pair.
    pub open spec fn generates_on(self, reply: ReplyView) -> bool {
        self is Probing && reply is Absent
    }
}

impl Ensure {
    /// The step after the probe found nothing at `path` and making a key pair
    /// came to `generated`.
    pub fn after_generation(
        path: String,
        generated: Result<KeyPairText, IdentityError>,
    ) -> (step: EnsureStep)
        ensures
            step@ == ensure_after_generation(path@, pair_outcome_view(generated)),
    {
        match generated {
            Ok(keys) => {
                let request = Request::CreateParentDirs { path: path.clone() };
                EnsureStep::Perform(Ensure::CreatingDirs { path, keys }, request)
            },
            Err(e) => EnsureStep::Done(Err(e)),
        }
    }

    /// Takes the outcome of the outstanding request and says what comes next.
    ///
    /// A key pair is made here, and only here, when a probe is answered
    /// `Absent`; the step is then the one that follows some possible outcome
    /// of making it. In every other case the step is fixed by the state and
    /// the reply alone.
    pub fn resume(self, reply: Reply) -> (step: EnsureStep)
        ensures
            exists|g: Result<KeyPairView, IdentityError>|
                possible_generation(g) && step@ == #[trigger] self@.next(reply@, g),
            !self@.generates_on(reply@) ==> forall|g: Result<KeyPairView, IdentityError>|
                step@ == #[trigger] self@.next(reply@, g),
    {
        let ghost none: Result<KeyPairView, IdentityError> = Err(IdentityError::RandomSource);
        match self {
            Ensure::Probing { path } => match reply {
                Reply::Absent => {
                    let generated = generate_keypair();
                    let step = Ensure::after_generation(path, generated);
                    assert(step@ == self@.next(reply@, pair_outcome_view(generated)));
                    step
                },
                _ => {
                    let step = EnsureStep::Done(Ok(()));
                    assert(step@ == self@.next(reply@, none));
                    step
                },
            },
            Ensure::CreatingDirs { path, keys } => match reply {
                Reply::Completed => {
                    let KeyPairText { private, public } = keys;
                    let request = Request::Write { path: path.clone(), contents: private };
                    let step = EnsureStep::Perform(Ensure::WritingPrivate { path, public }, request);
                    assert(step@ == self@.next(reply@, none));
                    step
                },
                _ => {
                    let step = EnsureStep::Done(Err(IdentityError::DirectoryCreation));
                    assert(step@ == self@.next(reply@, none));
                    step
                },
            },
            Ensure::WritingPrivate { path, public } => match reply {
                Reply::Completed => {
                    let request = Request::Write {
                        path: public_key_path(path.as_str()),
                        contents: public,
                    };
                    let step = EnsureStep::Perform(Ensure::WritingPublic { path }, request);
                    assert(step@ == self@.next(reply@, none));
                    step
                },
                _ => {
                    let step = EnsureStep::Done(Err(IdentityError::Write(KeyFile::Private)));
                    assert(step@ == self@.next(reply@, none));
                    step
                },
            },
            Ensure::WritingPublic { path } => match reply {
                Reply::Completed => {
                    let step = EnsureStep::Done(Ok(()));
                    assert(step@ == self@.next(reply@, none));
                    step
                },
                _ => {
                    let step = EnsureStep::Done(Err(IdentityError::Write(KeyFile::Public)));
                    assert(step@ == self@.next(reply@, none));
                    step
                },
            },
        }
    }
}

/// Begins making sure that a key pair exists for the private key at
/// `private_key_path`. The first step probes that path; hand each outcome to
/// `Ensure::resume` until the step is `Done`.
pub fn make_key_if_not_exists(private_key_path: &str) -> (step: EnsureStep)
    ensures
        step@ == ensure_start(private_key_path@),
{
    let state = Ensure::Probing { path: String::from_str(private_key_path) };
    let request = Request::Probe { path: String::from_str(private_key_path) };
    EnsureStep::Perform(state, request)
}

} // verus!
