//! Ed25519 key material in its OpenSSH text forms.
//!
//! The cryptography and the text formats are the work of the `ssh-key` crate,
//! and the randomness is the operating system's, drawn through `rand`. This
//! module holds the calls into both and, around them, what the library decides
//! itself: which parsed keys it accepts and how a failed call is reported.

use vstd::prelude::*;

use crate::error::{IdentityError, KeyFile};

verus! {

/// `ssh_key::Error`, the failure of a call into `ssh-key`.
#[verifier::external_type_specification]
#[verifier::external_body]
pub struct ExKeyError(ssh_key::Error);

/// `rand::Error`, the failure of the operating system's random source.
#[verifier::external_type_specification]
#[verifier::external_body]
pub struct ExRandomError(rand::Error);

/// What `ssh_key::PublicKey::from_openssh` makes of `text`: `None` where it
/// rejects the text; otherwise the comment and, for an Ed25519 key, the key's
/// bytes.
pub uninterp spec fn openssh_public_key(text: Seq<char>) -> Option<(Option<Seq<u8>>, Seq<char>)>;

/// The line that `ssh_key::PublicKey::to_openssh` writes for the Ed25519 key
/// with the bytes `key` and the comment `comment`, or `None` where it fails.
pub uninterp spec fn openssh_public_key_text(key: Seq<u8>, comment: Seq<char>) -> Option<Seq<char>>;

/// The public key of the Ed25519 pair that
/// `ssh_key::private::Ed25519Keypair::from_seed` expands from `seed`.
pub uninterp spec fn ed25519_public_key(seed: Seq<u8>) -> Seq<u8>;

/// The armored text that `ssh_key::PrivateKey::to_openssh` writes for the
/// unencrypted private key, without comment, of the pair expanded from
/// `seed`, its lines ended by CR LF where `crlf` holds and by LF otherwise;
/// `None` where the key cannot be made or written.
pub uninterp spec fn openssh_private_key_text(seed: Seq<u8>, crlf: bool) -> Option<Seq<char>>;

/// The view of an optional key: its bytes as a sequence.
pub open spec fn key_bytes_view(key: Option<[u8; 32]>) -> Option<Seq<u8>> {
    match key {
        Some(k) => Some(k@),
        None => None,
    }
}

/// Trusted: `ssh_key::PublicKey::from_openssh` applied to `text`. The result is
/// a function of the text alone, named `openssh_public_key`. Of a parsed key
/// the wrapper hands on the comment and, through `KeyData::ed25519`, the 32
/// bytes of an Ed25519 key; a key of another algorithm yields no bytes.
#[verifier::external_body]
fn parse_openssh(text: &str) -> (r: Result<(Option<[u8; 32]>, String), ssh_key::Error>)
    ensures
        match r {
            Ok((key, comment)) => openssh_public_key(text@) == Some(
                (key_bytes_view(key), comment@),
            ),
            Err(_) => openssh_public_key(text@) is None,
        },
{
    let key = ssh_key::PublicKey::from_openssh(text)?;
    Ok((key.key_data().ed25519().map(|k| k.0), key.comment().to_string()))
}

/// Trusted: `ssh_key::PublicKey::to_openssh` applied to the Ed25519 public key
/// made of `key` and `comment` by `ssh_key::PublicKey::new`. The result is a
/// function of the two alone, named `openssh_public_key_text`.
#[verifier::external_body]
fn encode_openssh(key: &[u8; 32], comment: &str) -> (r: Result<String, ssh_key::Error>)
    ensures
        match r {
            Ok(text) => openssh_public_key_text(key@, comment@) == Some(text@),
            Err(_) => openssh_public_key_text(key@, comment@) is None,
        },
{
    let data = ssh_key::public::KeyData::Ed25519(ssh_key::public::Ed25519PublicKey(*key));
    ssh_key::PublicKey::new(data, comment).to_openssh()
}

/// Trusted: 32 bytes from `rand::rngs::OsRng` through
/// `rand::RngCore::try_fill_bytes`, which reports an unavailable source
/// instead of aborting. Nothing is claimed of the bytes.
#[verifier::external_body]
fn os_entropy() -> Result<[u8; 32], rand::Error> {
    let mut seed: [u8; 32] = [0u8; 32];
    rand::RngCore::try_fill_bytes(&mut rand::rngs::OsRng, &mut seed)?;
    Ok(seed)
}

/// Trusted: whether `ssh_key::LineEnding::default()`, the line ending of the
/// platform the library was built for, is CR LF. It is LF everywhere else.
/// The answer is the platform's, so nothing is claimed of it.
#[verifier::external_body]
fn platform_crlf() -> bool {
    matches!(ssh_key::LineEnding::default(), ssh_key::LineEnding::CRLF)
}

/// Trusted: the public half of the pair that
/// `ssh_key::private::Ed25519Keypair::from_seed` expands from `seed`. The
/// result is a function of the seed alone, named `ed25519_public_key`.
#[verifier::external_body]
fn public_key_of_seed(seed: &[u8; 32]) -> (key: [u8; 32])
    ensures
        key@ == ed25519_public_key(seed@),
{
    ssh_key::private::Ed25519Keypair::from_seed(seed).public.0
}

/// Trusted: `ssh_key::PrivateKey::to_openssh`, with the line ending that
/// `crlf` selects, applied to the unencrypted key with an empty comment that
/// `ssh_key::PrivateKey::new` makes of the pair expanded from `seed` by
/// `Ed25519Keypair::from_seed`. The result is a function of the seed and the
/// line ending alone, named `openssh_private_key_text`.
#[verifier::external_body]
fn private_key_text_of_seed(seed: &[u8; 32], crlf: bool) -> (r: Result<String, ssh_key::Error>)
    ensures
        match r {
            Ok(text) => openssh_private_key_text(seed@, crlf) == Some(text@),
            Err(_) => openssh_private_key_text(seed@, crlf) is None,
        },
{
    let ending = if crlf { ssh_key::LineEnding::CRLF } else { ssh_key::LineEnding::LF };
    let pair = ssh_key::private::Ed25519Keypair::from_seed(seed);
    let key = ssh_key::PrivateKey::new(ssh_key::private::KeypairData::from(pair), "")?;
    Ok(key.to_openssh(ending)?.to_string())
}

/// An Ed25519 public key: the 32 bytes of the key and a comment.
#[derive(Clone, Debug, PartialEq, Eq)]
pub struct PublicKey {
    /// The key itself.
    pub key: [u8; 32],
    /// A label for the key, empty where it has none.
    pub comment: String,
}

/// A public key as contracts see it.
pub struct PublicKeyView {
    pub key: Seq<u8>,
    pub comment: Seq<char>,
}

impl View for PublicKey {
    type V = PublicKeyView;

    open spec fn view(&self) -> PublicKeyView {
        PublicKeyView { key: self.key@, comment: self.comment@ }
    }
}

/// The outcome of reading a public key, as contracts see it.
pub open spec fn key_outcome_view(r: Result<PublicKey, IdentityError>) -> Result<
    PublicKeyView,
    IdentityError,
> {
    match r {
        Ok(key) => Ok(key@),
        Err(e) => Err(e),
    }
}

/// Which parsed keys the library accepts: Ed25519 keys of 32 bytes, and no
/// others. Text that did not parse, or that holds a key of another algorithm,
/// is a format error.
pub open spec fn accepted_key(parsed: Option<(Option<Seq<u8>>, Seq<char>)>) -> Result<
    PublicKeyView,
    IdentityError,
> {
    match parsed {
        Some((Some(key), comment)) => if key.len() == 32 {
            Ok(PublicKeyView { key, comment })
        } else {
            Err(IdentityError::Format)
        },
        _ => Err(IdentityError::Format),
    }
}

/// The text of a public key file that holds `key`, where the key can be
/// written down at all.
pub open spec fn public_key_text(key: PublicKeyView) -> Option<Seq<char>> {
    openssh_public_key_text(key.key, key.comment)
}

impl PublicKey {
    /// A public key from its bytes and a comment.
    pub fn new(key: [u8; 32], comment: String) -> (r: PublicKey)
        ensures
            r@ == (PublicKeyView { key: key@, comment: comment@ }),
    {
        PublicKey { key, comment }
    }

    /// The algorithm's name as OpenSSH writes it.
    pub fn algorithm(&self) -> (name: &'static str)
        ensures
            name@ == "ssh-ed25519"@,
    {
        "ssh-ed25519"
    }

    /// The key's 32 bytes.
    pub fn key_bytes(&self) -> (bytes: &[u8; 32])
        ensures
            bytes@ == self@.key,
            bytes@.len() == 32,
    {
        &self.key
    }

    /// The comment, empty where the key has none.
    pub fn comment(&self) -> (comment: &str)
        ensures
            comment@ == self@.comment,
    {
        self.comment.as_str()
    }

    /// Decides what a parsed key file amounts to.
    pub fn from_parsed(parsed: Option<(Option<[u8; 32]>, String)>) -> (r: Result<
        PublicKey,
        IdentityError,
    >)
        ensures
            key_outcome_view(r) == accepted_key(
                match parsed {
                    Some((key, comment)) => Some((key_bytes_view(key), comment@)),
                    None => None,
                },
            ),
            r matches Ok(key) ==> key@.key.len() == 32,
    {
        match parsed {
            Some((Some(key), comment)) => Ok(PublicKey { key, comment }),
            _ => Err(IdentityError::Format),
        }
    }

    /// Reads a public key from the text of a public key file: one line that
    /// holds the algorithm's name, the key in Base64, and perhaps a comment.
    pub fn from_openssh(text: &str) -> (r: Result<PublicKey, IdentityError>)
        ensures
            key_outcome_view(r) == accepted_key(openssh_public_key(text@)),
            r matches Ok(key) ==> key@.key.len() == 32,
    {
        match parse_openssh(text) {
            Ok(parsed) => PublicKey::from_parsed(Some(parsed)),
            Err(_) => PublicKey::from_parsed(None),
        }
    }

    /// Writes the key as the line of a public key file.
    pub fn to_openssh(&self) -> (r: Result<String, IdentityError>)
        ensures
            match r {
                Ok(text) => public_key_text(self@) == Some(text@),
                Err(e) => e == IdentityError::Format && public_key_text(self@) is None,
            },
    {
        match encode_openssh(&self.key, self.comment.as_str()) {
            Ok(text) => Ok(text),
            Err(_) => Err(IdentityError::Format),
        }
    }
}

/// A freshly made key pair, both halves already in the text that goes to disk.
#[derive(Debug)]
pub struct KeyPairText {
    /// The armored text of the private key.
    pub private: String,
    /// The line of the public key file.
    pub public: String,
}

/// A key pair's two texts as contracts see them.
pub struct KeyPairView {
    pub private: Seq<char>,
    pub public: Seq<char>,
}

impl View for KeyPairText {
    type V = KeyPairView;

    open spec fn view(&self) -> KeyPairView {
        KeyPairView { private: self.private@, public: self.public@ }
    }
}

/// The outcome of making a key pair, as contracts see it.
pub open spec fn pair_outcome_view(r: Result<KeyPairText, IdentityError>) -> Result<
    KeyPairView,
    IdentityError,
> {
    match r {
        Ok(pair) => Ok(pair@),
        Err(e) => Err(e),
    }
}

/// The two texts of the key pair that `seed` expands to, the private text
/// with the line ending that `crlf` selects, the public text without comment.
/// A half that cannot be written down is reported as the failure to write
/// the file that would have held it, the private key's first.
pub open spec fn keypair_of_seed(seed: Seq<u8>, crlf: bool) -> Result<KeyPairView, IdentityError> {
    match openssh_private_key_text(seed, crlf) {
        None => Err(IdentityError::Write(KeyFile::Private)),
        Some(private) => match openssh_public_key_text(
            ed25519_public_key(seed),
            Seq::<char>::empty(),
        ) {
            None => Err(IdentityError::Write(KeyFile::Public)),
            Some(public) => Ok(KeyPairView { private, public }),
        },
    }
}

/// What making a key pair can come to: no randomness, or what some seed of
/// 32 bytes expands to under one of the two line endings.
pub open spec fn possible_generation(g: Result<KeyPairView, IdentityError>) -> bool {
    g == Err::<KeyPairView, IdentityError>(IdentityError::RandomSource) || exists|
        seed: Seq<u8>,
        crlf: bool,
    |
        seed.len() == 32 && g == #[trigger] keypair_of_seed(seed, crlf)
}

/// Expands `seed` to an Ed25519 key pair and writes both halves down, the
/// private text with the line ending that `crlf` selects.
pub fn keypair_with_line_ending(seed: &[u8; 32], crlf: bool) -> (r: Result<
    KeyPairText,
    IdentityError,
>)
    ensures
        pair_outcome_view(r) == keypair_of_seed(seed@, crlf),
{
    let private = match private_key_text_of_seed(seed, crlf) {
        Ok(text) => text,
        Err(_) => {
            return Err(IdentityError::Write(KeyFile::Private));
        },
    };
    let public_key = PublicKey::new(public_key_of_seed(seed), String::new());
    match public_key.to_openssh() {
        Ok(public) => Ok(KeyPairText { private, public }),
        Err(_) => Err(IdentityError::Write(KeyFile::Public)),
    }
}

/// Expands `seed` to an Ed25519 key pair and writes both halves down, the
/// private text with the platform's line ending. The same seed gives the
/// same key on every machine.
pub fn keypair_from_seed(seed: &[u8; 32]) -> (r: Result<KeyPairText, IdentityError>)
    ensures
        exists|crlf: bool| pair_outcome_view(r) == #[trigger] keypair_of_seed(seed@, crlf),
        possible_generation(pair_outcome_view(r)),
{
    let crlf = platform_crlf();
    let r = keypair_with_line_ending(seed, crlf);
    assert(pair_outcome_view(r) == keypair_of_seed(seed@, crlf));
    r
}

/// Makes a new key pair from the operating system's secure randomness. Where
/// that source is unavailable the call fails; it never falls back on another.
pub fn generate_keypair() -> (r: Result<KeyPairText, IdentityError>)
    ensures
        possible_generation(pair_outcome_view(r)),
{
    match os_entropy() {
        Ok(seed) => keypair_from_seed(&seed),
        Err(_) => Err(IdentityError::RandomSource),
    }
}

} // verus!
