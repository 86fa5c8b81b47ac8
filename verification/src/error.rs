//! The ways in which establishing or reading the identity can fail.

use vstd::prelude::*;

use crate::paths::{public_key_path, public_key_path_of};

verus! {

/// One of the two files that make up an identity.
#[derive(Clone, Copy, Debug, PartialEq, Eq, Structural)]
pub enum KeyFile {
    /// The private key, at the identity path itself.
    Private,
    /// The public key, beside the private key.
    Public,
}

/// Why an operation on the identity failed. Every failure is fatal for the
/// operation that met it; nothing is retried or repaired.
#[derive(Clone, Copy, Debug, PartialEq, Eq, Structural)]
pub enum IdentityError {
    /// No home directory could be determined, so there is no default path.
    PathResolution,
    /// The directories above the private key could not be created.
    DirectoryCreation,
    /// The named key file could not be written.
    Write(KeyFile),
    /// The public key file could not be read.
    Read,
    /// The public key file does not hold an Ed25519 public key.
    Format,
    /// The operating system gave no secure randomness.
    RandomSource,
}

impl IdentityError {
    /// The diagnostic for a failure met while working on the private key at
    /// `private_key_path`: which step failed, and on which path.
    pub open spec fn describe(self, private_key_path: Seq<char>) -> Seq<char> {
        match self {
            IdentityError::PathResolution => "cannot determine the home directory"@,
            IdentityError::DirectoryCreation => "cannot create the directories above "@
                + private_key_path,
            IdentityError::Write(KeyFile::Private) => "cannot write the private key to "@
                + private_key_path,
            IdentityError::Write(KeyFile::Public) => "cannot write the public key to "@
                + public_key_path_of(private_key_path),
            IdentityError::Read => "cannot read the public key from "@ + public_key_path_of(
                private_key_path,
            ),
            IdentityError::Format => "no Ed25519 public key in "@ + public_key_path_of(
                private_key_path,
            ),
            IdentityError::RandomSource => "no secure randomness available"@,
        }
    }

    /// Writes the diagnostic for this failure.
    pub fn message(&self, private_key_path: &str) -> (text: String)
        ensures
            text@ == self.describe(private_key_path@),
    {
        match self {
            IdentityError::PathResolution => String::from_str(
                "cannot determine the home directory",
            ),
            IdentityError::DirectoryCreation => String::from_str(
                "cannot create the directories above ",
            ).concat(private_key_path),
            IdentityError::Write(KeyFile::Private) => String::from_str(
                "cannot write the private key to ",
            ).concat(private_key_path),
            IdentityError::Write(KeyFile::Public) => String::from_str(
                "cannot write the public key to ",
            ).concat(public_key_path(private_key_path).as_str()),
            IdentityError::Read => String::from_str("cannot read the public key from ").concat(
                public_key_path(private_key_path).as_str(),
            ),
            IdentityError::Format => String::from_str("no Ed25519 public key in ").concat(
                public_key_path(private_key_path).as_str(),
            ),
            IdentityError::RandomSource => String::from_str("no secure randomness available"),
        }
    }
}

} // verus!
