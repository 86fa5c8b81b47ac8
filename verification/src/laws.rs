//! What the steps add up to, stated over the model of the files and proved.

use vstd::prelude::*;

use crate::disk::{carry_out, ensure_run, retrieval_run, Disk, Surroundings};
use crate::ensure::{ensure_start, EnsureStepView, EnsureView};
use crate::error::{IdentityError, KeyFile};
use crate::io::{ReplyView, RequestView};
use crate::keys::{
    accepted_key,
    ed25519_public_key,
    keypair_of_seed,
    openssh_private_key_text,
    openssh_public_key,
    openssh_public_key_text,
    possible_generation,
    KeyPairView,
    PublicKeyView,
};
use crate::paths::{lemma_public_path_differs, public_key_path_of};
use crate::retrieve::{retrieval_start, RetrievalView, StepView};

verus! {

/// Absence of the private key file is the sole trigger for generation: on
/// any other answer to the probe the work is over at once, with success, and
/// no further request is made.
pub proof fn lemma_absence_is_the_sole_trigger(
    path: Seq<char>,
    reply: ReplyView,
    generated: Result<KeyPairView, IdentityError>,
)
    requires
        !(reply is Absent),
    ensures
        (EnsureView::Probing { path }).next(reply, generated) == EnsureStepView::Done(Ok(())),
{
}

/// Every reply uses up a request: the work of ensuring a key pair is over
/// after four requests at most, and a retrieval after five.
pub proof fn lemma_every_reply_counts(
    ensure: EnsureView,
    retrieval: RetrievalView,
    reply: ReplyView,
    generated: Result<KeyPairView, IdentityError>,
)
    ensures
        ensure.next(reply, generated).remaining() < ensure.remaining() <= 4,
        retrieval.next(reply, generated).remaining() < retrieval.remaining() <= 5,
{
}

/// An identity that is established is left alone: where the private key file
/// exists, ensuring the key pair succeeds and changes no file, whatever the
/// public key file holds and whatever the surroundings do.
pub proof fn lemma_established_identity_is_left_alone(
    disk: Disk,
    path: Seq<char>,
    around: Surroundings,
)
    requires
        disk.dom().contains(path),
    ensures
        ensure_run(ensure_start(path), disk, around) == (disk, Ok::<(), IdentityError>(())),
{
    reveal_with_fuel(ensure_run, 3);
}

/// Ensuring a key pair establishes the identity: after a success the private
/// key file exists.
pub proof fn lemma_success_establishes_identity(disk: Disk, path: Seq<char>, around: Surroundings)
    requires
        ensure_run(ensure_start(path), disk, around).1 is Ok,
    ensures
        ensure_run(ensure_start(path), disk, around).0.dom().contains(path),
{
    reveal_with_fuel(ensure_run, 6);
}

/// Ensuring is idempotent: once a call has succeeded, a second call succeeds
/// too and leaves every file exactly as the first call left it, whatever the
/// surroundings of the second call are.
pub proof fn lemma_ensure_is_idempotent(
    disk: Disk,
    path: Seq<char>,
    first: Surroundings,
    second: Surroundings,
)
    requires
        ensure_run(ensure_start(path), disk, first).1 is Ok,
    ensures
        ({
            let after = ensure_run(ensure_start(path), disk, first).0;
            ensure_run(ensure_start(path), after, second) == (after, Ok::<(), IdentityError>(()))
        }),
{
    lemma_success_establishes_identity(disk, path, first);
    let after = ensure_run(ensure_start(path), disk, first).0;
    lemma_established_identity_is_left_alone(after, path, second);
}

/// The first call makes one pair: where no private key file exists and the
/// work of ensuring succeeds, one key pair was made and its two texts were
/// written, the private key at the path and the public key beside it. The
/// two files are distinct, a public key file that was there before is
/// replaced, and no other file is created or changed.
pub proof fn lemma_first_ensure_creates_one_pair(disk: Disk, path: Seq<char>, around: Surroundings)
    requires
        !disk.dom().contains(path),
        ensure_run(ensure_start(path), disk, around).1 is Ok,
    ensures
        ({
            let after = ensure_run(ensure_start(path), disk, around).0;
            let public_path = public_key_path_of(path);
            &&& around.generated matches Ok(keys)
            &&& public_path != path
            &&& after == disk.insert(path, keys.private).insert(public_path, keys.public)
            &&& after.dom() == disk.dom().insert(path).insert(public_path)
            &&& after[path] == keys.private
            &&& after[public_path] == keys.public
        }),
{
    reveal_with_fuel(ensure_run, 6);
    lemma_public_path_differs(path);
    let after = ensure_run(ensure_start(path), disk, around).0;
    let public_path = public_key_path_of(path);
    assert(after.dom() =~= disk.dom().insert(path).insert(public_path));
}

/// Both files come from one seed: where no private key file exists, the
/// work of ensuring succeeds and the key pair is one that generation can
/// give, there is a seed of 32 bytes such that the private key file holds
/// the private key expanded from it and the public key file holds, without
/// comment, the public key expanded from it.
pub proof fn lemma_both_files_come_from_one_seed(disk: Disk, path: Seq<char>, around: Surroundings)
    requires
        !disk.dom().contains(path),
        possible_generation(around.generated),
        ensure_run(ensure_start(path), disk, around).1 is Ok,
    ensures
        ({
            let after = ensure_run(ensure_start(path), disk, around).0;
            exists|seed: Seq<u8>, crlf: bool|
                {
                    &&& seed.len() == 32
                    &&& around.generated == #[trigger] keypair_of_seed(seed, crlf)
                    &&& openssh_private_key_text(seed, crlf) == Some(after[path])
                    &&& openssh_public_key_text(ed25519_public_key(seed), Seq::<char>::empty())
                        == Some(after[public_key_path_of(path)])
                }
        }),
{
    lemma_first_ensure_creates_one_pair(disk, path, around);
    let (seed, crlf) = choose|seed: Seq<u8>, crlf: bool|
        seed.len() == 32 && around.generated == #[trigger] keypair_of_seed(seed, crlf);
    assert(around.generated == keypair_of_seed(seed, crlf));
}

/// A retrieval ensures, then reads: it runs the work of ensuring the key
/// pair; where that fails, so does the retrieval, with the same failure and
/// the same files; where it succeeds, the retrieval changes no further file
/// and its outcome is the key that the public key file then holds, a format
/// error where it holds none, or a read error where the file is missing or
/// cannot be read.
pub proof fn lemma_retrieval_ensures_then_reads(disk: Disk, path: Seq<char>, around: Surroundings)
    ensures
        ({
            let (after, ensured) = ensure_run(ensure_start(path), disk, around);
            let public_path = public_key_path_of(path);
            let read = RequestView::Read { path: public_path };
            retrieval_run(retrieval_start(path), disk, around) == match ensured {
                Ok(_) => (
                    after,
                    if (around.luck)(read) is Good && after.dom().contains(public_path) {
                        accepted_key(openssh_public_key(after[public_path]))
                    } else {
                        Err(IdentityError::Read)
                    },
                ),
                Err(e) => (after, Err::<PublicKeyView, IdentityError>(e)),
            }
        }),
{
    reveal_with_fuel(ensure_run, 6);
    reveal_with_fuel(retrieval_run, 7);
}

/// Generation is lazy and happens once: where no private key file exists
/// and the key pair can be made and written, a retrieval has made one key
/// pair and written its two texts, the private key at the path and the
/// public key beside it. These two files are distinct, no other file is
/// created or changed, and the outcome is the key that the new public key
/// file holds, or a read error where that file cannot be read back.
pub proof fn lemma_lazy_generation(disk: Disk, path: Seq<char>, around: Surroundings)
    requires
        !disk.dom().contains(path),
        ensure_run(ensure_start(path), disk, around).1 is Ok,
    ensures
        ({
            let (after, outcome) = retrieval_run(retrieval_start(path), disk, around);
            let public_path = public_key_path_of(path);
            let read = RequestView::Read { path: public_path };
            &&& around.generated matches Ok(keys)
            &&& public_path != path
            &&& after == disk.insert(path, keys.private).insert(public_path, keys.public)
            &&& after.dom() == disk.dom().insert(path).insert(public_path)
            &&& after[path] == keys.private
            &&& after[public_path] == keys.public
            &&& outcome == if (around.luck)(read) is Good {
                accepted_key(openssh_public_key(keys.public))
            } else {
                Err(IdentityError::Read)
            }
        }),
{
    lemma_first_ensure_creates_one_pair(disk, path, around);
    lemma_retrieval_ensures_then_reads(disk, path, around);
}

/// A fresh key is handed out as it was made, given that the parser reads
/// back what the encoder wrote: where no private key file exists, the pair
/// expanded from `seed` is made and written, the public key file can be
/// read, and parsing the public text of that pair yields the pair's public
/// key of 32 bytes without comment, the retrieval hands out exactly that
/// key.
pub proof fn lemma_fresh_key_is_handed_out_given_round_trip(
    disk: Disk,
    path: Seq<char>,
    around: Surroundings,
    seed: Seq<u8>,
    crlf: bool,
)
    requires
        !disk.dom().contains(path),
        around.generated == keypair_of_seed(seed, crlf),
        ensure_run(ensure_start(path), disk, around).1 is Ok,
        (around.luck)(RequestView::Read { path: public_key_path_of(path) }) is Good,
        ed25519_public_key(seed).len() == 32,
        around.generated matches Ok(keys) ==> openssh_public_key(keys.public) == Some(
            (Some(ed25519_public_key(seed)), Seq::<char>::empty()),
        ),
    ensures
        retrieval_run(retrieval_start(path), disk, around).1 == Ok::<
            PublicKeyView,
            IdentityError,
        >(PublicKeyView { key: ed25519_public_key(seed), comment: Seq::<char>::empty() }),
{
    lemma_lazy_generation(disk, path, around);
}

/// A retrieval reads what is there: where the private key file exists, no
/// file is changed, and the outcome is the key that the public key file
/// holds, a format error where it holds none, or a read error where the file
/// is missing or cannot be read.
pub proof fn lemma_retrieval_reads_established_identity(
    disk: Disk,
    path: Seq<char>,
    around: Surroundings,
)
    requires
        disk.dom().contains(path),
    ensures
        ({
            let (after, outcome) = retrieval_run(retrieval_start(path), disk, around);
            let public_path = public_key_path_of(path);
            let read = RequestView::Read { path: public_path };
            &&& after == disk
            &&& outcome == if (around.luck)(read) is Good && disk.dom().contains(public_path) {
                accepted_key(openssh_public_key(disk[public_path]))
            } else {
                Err(IdentityError::Read)
            }
        }),
{
    reveal_with_fuel(retrieval_run, 4);
}

/// Retrieval is repeatable: after a retrieval that handed out a key, a second
/// one changes no file and, unless its read fails, hands out the same key.
pub proof fn lemma_retrieval_is_repeatable(
    disk: Disk,
    path: Seq<char>,
    first: Surroundings,
    second: Surroundings,
)
    requires
        retrieval_run(retrieval_start(path), disk, first).1 is Ok,
    ensures
        ({
            let (after, key) = retrieval_run(retrieval_start(path), disk, first);
            let (last, again) = retrieval_run(retrieval_start(path), after, second);
            &&& last == after
            &&& again == key || again == Err::<PublicKeyView, IdentityError>(IdentityError::Read)
        }),
{
    let (after, key) = retrieval_run(retrieval_start(path), disk, first);
    let public_path = public_key_path_of(path);
    if disk.dom().contains(path) {
        lemma_retrieval_reads_established_identity(disk, path, first);
    } else {
        lemma_retrieval_ensures_then_reads(disk, path, first);
        lemma_lazy_generation(disk, path, first);
    }
    assert(after.dom().contains(path));
    assert(after.dom().contains(public_path));
    assert(key == accepted_key(openssh_public_key(after[public_path])));
    lemma_retrieval_reads_established_identity(after, path, second);
}

/// Every key that a retrieval hands out is an Ed25519 key of exactly 32
/// bytes.
pub proof fn lemma_retrieved_key_has_32_bytes(
    step: StepView,
    disk: Disk,
    around: Surroundings,
)
    requires
        step is Perform,
        retrieval_run(step, disk, around).1 matches Ok(_),
    ensures
        retrieval_run(step, disk, around).1->Ok_0.key.len() == 32,
    decreases step.remaining(),
{
    reveal_with_fuel(retrieval_run, 2);
    let state = step->Perform_0;
    let request = step->Perform_1;
    let (after, reply) = carry_out(disk, request, (around.luck)(request));
    let next = state.next(reply, around.generated);
    if next is Perform {
        lemma_retrieved_key_has_32_bytes(next, after, around);
    }
}

/// Writing is not atomic: where the private key is written and the write of
/// the public key fails cleanly, the work fails and leaves the private key
/// file without its public key file. The next call reads this as an
/// established identity.
pub proof fn lemma_failed_public_write_leaves_private_key(
    disk: Disk,
    path: Seq<char>,
    around: Surroundings,
)
    requires
        !disk.dom().contains(path),
        !disk.dom().contains(public_key_path_of(path)),
        around.generated is Ok,
        (around.luck)(RequestView::CreateParentDirs { path }) is Good,
        (around.luck)(RequestView::Write { path, contents: around.generated->Ok_0.private })
            is Good,
        (around.luck)(
            RequestView::Write {
                path: public_key_path_of(path),
                contents: around.generated->Ok_0.public,
            },
        ) is Bad,
    ensures
        ({
            let (after, outcome) = ensure_run(ensure_start(path), disk, around);
            &&& outcome == Err::<(), IdentityError>(IdentityError::Write(KeyFile::Public))
            &&& after == disk.insert(path, around.generated->Ok_0.private)
            &&& after.dom().contains(path)
            &&& !after.dom().contains(public_key_path_of(path))
        }),
{
    reveal_with_fuel(ensure_run, 6);
    lemma_public_path_differs(path);
}

} // verus!
