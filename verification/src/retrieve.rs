//! Retrieving the public key: make sure the key pair exists, then read the
//! public key file and parse it.

use vstd::prelude::*;

use crate::ensure::{ensure_start, Ensure, EnsureStep, EnsureStepView, EnsureView};
use crate::error::IdentityError;
use crate::io::{Reply, ReplyView, Request, RequestView};
use crate::keys::{
    accepted_key,
    key_outcome_view,
    openssh_public_key,
    possible_generation,
    KeyPairView,
    PublicKey,
    PublicKeyView,
};
use crate::paths::{public_key_path, public_key_path_of};

verus! {

/// Where a retrieval stands. `path` is the private key's path throughout.
#[derive(Debug)]
pub enum Retrieval {
    /// The key pair is being ensured.
    Ensuring { path: String, ensure: Ensure },
    /// The key pair exists; waiting for the text of the public key file.
    Reading { path: String },
}

/// A `Retrieval` as contracts see it.
pub enum RetrievalView {
    Ensuring { path: Seq<char>, ensure: EnsureView },
    Reading { path: Seq<char> },
}

impl View for Retrieval {
    type V = RetrievalView;

    open spec fn view(&self) -> RetrievalView {
        match *self {
            Retrieval::Ensuring { path, ensure } => RetrievalView::Ensuring {
                path: path@,
                ensure: ensure@,
            },
            Retrieval::Reading { path } => RetrievalView::Reading { path: path@ },
        }
    }
}

/// What comes next in a retrieval: one more request, or the end.
#[derive(Debug)]
pub enum Step {
    /// Carry out the request and resume the state with its outcome.
    Perform(Retrieval, Request),
    /// The retrieval is over: here is the public key, or why there is none.
    Finished(Result<PublicKey, IdentityError>),
}

/// A `Step` as contracts see it.
pub enum StepView {
    Perform(RetrievalView, RequestView),
    Finished(Result<PublicKeyView, IdentityError>),
}

impl View for Step {
    type V = StepView;

    open spec fn view(&self) -> StepView {
        match *self {
            Step::Perform(state, request) => StepView::Perform(state@, request@),
            Step::Finished(outcome) => StepView::Finished(key_outcome_view(outcome)),
        }
    }
}

/// How a step of ensuring the key pair appears in the retrieval for the
/// private key at `path`: requests pass through, failure ends the retrieval,
/// and success leads to reading the public key file.
pub open spec fn retrieval_after_ensure(path: Seq<char>, step: EnsureStepView) -> StepView {
    match step {
        EnsureStepView::Perform(ensure, request) => StepView::Perform(
            RetrievalView::Ensuring { path, ensure },
            request,
        ),
        EnsureStepView::Done(Ok(_)) => StepView::Perform(
            RetrievalView::Reading { path },
            RequestView::Read { path: public_key_path_of(path) },
        ),
        EnsureStepView::Done(Err(e)) => StepView::Finished(Err(e)),
    }
}

/// The first step of retrieving the public key for the private key at `path`.
pub open spec fn retrieval_start(path: Seq<char>) -> StepView {
    retrieval_after_ensure(path, ensure_start(path))
}

impl RetrievalView {
    /// How many requests are outstanding at most, this state's included.
    pub open spec fn remaining(self) -> nat {
        match self {
            RetrievalView::Ensuring { ensure, .. } => ensure.remaining() + 1,
            RetrievalView::Reading { .. } => 1,
        }
    }

    /// The step that follows `reply`. `generated` is what making a key pair
    /// comes to; it is consulted only when a probe is answered `Absent`.
    ///
    /// The text of the public key file yields the key that it holds, or a
    /// format error; any other reply to the read is a read error.
    pub open spec fn next(
        self,
        reply: ReplyView,
        generated: Result<KeyPairView, IdentityError>,
    ) -> StepView {
        match self {
            RetrievalView::Ensuring { path, ensure } => retrieval_after_ensure(
                path,
                ensure.next(reply, generated),
            ),
            RetrievalView::Reading { path } => match reply {
                ReplyView::Contents(text) => StepView::Finished(
                    accepted_key(openssh_public_key(text)),
                ),
                _ => StepView::Finished(Err(IdentityError::Read)),
            },
        }
    }

    /// Whether the step that follows `reply` depends on a new key pair.
    pub open spec fn generates_on(self, reply: ReplyView) -> bool {
        self matches RetrievalView::Ensuring { ensure, .. } && ensure.generates_on(reply)
    }
}

impl Retrieval {
    /// Places a step of ensuring the key pair in the retrieval for the
    /// private key at `path`.
    pub fn after_ensure(path: String, step: EnsureStep) -> (r: Step)
        ensures
            r@ == retrieval_after_ensure(path@, step@),
    {
        match step {
            EnsureStep::Perform(ensure, request) => Step::Perform(
                Retrieval::Ensuring { path, ensure },
                request,
            ),
            EnsureStep::Done(Ok(_)) => {
                let request = Request::Read { path: public_key_path(path.as_str()) };
                Step::Perform(Retrieval::Reading { path }, request)
            },
            EnsureStep::Done(Err(e)) => Step::Finished(Err(e)),
        }
    }

    /// Takes the outcome of the outstanding request and says what comes next.
    ///
    /// A key pair is made only when the probe of the private key is answered
    /// `Absent`; the step is then the one that follows some possible outcome
    /// of making it. In every other case the step is fixed by the state and
    /// the reply alone. A key that is handed out is an Ed25519 key of 32
    /// bytes.
    pub fn resume(self, reply: Reply) -> (step: Step)
        ensures
            exists|g: Result<KeyPairView, IdentityError>|
                possible_generation(g) && step@ == #[trigger] self@.next(reply@, g),
            !self@.generates_on(reply@) ==> forall|g: Result<KeyPairView, IdentityError>|
                step@ == #[trigger] self@.next(reply@, g),
            step matches Step::Finished(Ok(key)) ==> key@.key.len() == 32,
    {
        match self {
            Retrieval::Ensuring { path, ensure } => {
                let inner = ensure.resume(reply);
                let step = Retrieval::after_ensure(path, inner);
                proof {
                    let g = choose|g: Result<KeyPairView, IdentityError>|
                        possible_generation(g) && inner@ == #[trigger] ensure@.next(reply@, g);
                    assert(step@ == self@.next(reply@, g));
                    if !self@.generates_on(reply@) {
                        assert forall|h: Result<KeyPairView, IdentityError>|
                            step@ == #[trigger] self@.next(reply@, h) by {
                            assert(inner@ == ensure@.next(reply@, h));
                        }
                    }
                }
                step
            },
            Retrieval::Reading { path } => {
                let ghost none: Result<KeyPairView, IdentityError> = Err(
                    IdentityError::RandomSource,
                );
                let step = match reply {
                    Reply::Contents(text) => Step::Finished(PublicKey::from_openssh(text.as_str())),
                    _ => Step::Finished(Err(IdentityError::Read)),
                };
                assert(step@ == self@.next(reply@, none));
                step
            },
        }
    }
}

/// Begins retrieving the public key that belongs to the private key at
/// `private_key_path`, making the key pair first where there is none. The
/// first step probes the private key; hand each outcome to
/// `Retrieval::resume` until the step is `Finished`.
pub fn get_public_key(private_key_path: &str) -> (step: Step)
    ensures
        step@ == retrieval_start(private_key_path@),
{
    let first = crate::ensure::make_key_if_not_exists(private_key_path);
    Retrieval::after_ensure(String::from_str(private_key_path), first)
}

} // verus!
