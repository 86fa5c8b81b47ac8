//! Where the identity lives: the private key's path under a home directory,
//! and the public key's path beside it. Paths are text with `/` between their
//! components.

use vstd::prelude::*;

use crate::error::IdentityError;

verus! {

/// The private key's place below the home directory.
pub const KEY_SUFFIX: &'static str = ".config/ewpratten/config-agent-key";

/// What is added to the private key's path to name the public key file.
pub const PUBLIC_KEY_EXTENSION: &'static str = ".pub";

/// The private key's path for a given home directory: the home directory, a
/// `/` unless the home directory is empty or already ends in one, and the
/// fixed suffix.
pub open spec fn default_key_path(home: Seq<char>) -> Seq<char> {
    if home.len() == 0 || home.last() == '/' {
        home + KEY_SUFFIX@
    } else {
        home + seq!['/'] + KEY_SUFFIX@
    }
}

/// The public key's path: the private key's path with the extension added.
pub open spec fn public_key_path_of(private_key_path: Seq<char>) -> Seq<char> {
    private_key_path + PUBLIC_KEY_EXTENSION@
}

/// Computes the private key's path for the home directory `home`.
pub fn key_path_in_home(home: &str) -> (path: String)
    ensures
        path@ == default_key_path(home@),
{
    let n = home.unicode_len();
    let base = String::from_str(home);
    let base = if n == 0 || home.get_char(n - 1) == '/' {
        base
    } else {
        proof {
            reveal_strlit("/");
            assert("/"@ =~= seq!['/']);
        }
        base.concat("/")
    };
    base.concat(KEY_SUFFIX)
}

/// Computes the public key's path from the private key's.
pub fn public_key_path(private_key_path: &str) -> (path: String)
    ensures
        path@ == public_key_path_of(private_key_path@),
{
    String::from_str(private_key_path).concat(PUBLIC_KEY_EXTENSION)
}

/// Trusted: the home directory that `directories::BaseDirs::new` finds for the
/// current user, as text; `None` where it finds none, or where the path that
/// `BaseDirs::home_dir` returns is not text. The answer depends on the
/// machine and the user, so nothing is claimed of it.
#[verifier::external_body]
fn home_directory() -> Option<String> {
    directories::BaseDirs::new().and_then(|dirs| dirs.home_dir().to_str().map(|home| home.to_string()))
}

/// The default path once the home directory is known, or the failure when
/// there is none.
pub fn resolve_key_path(home: Option<String>) -> (r: Result<String, IdentityError>)
    ensures
        match home {
            Some(h) => r matches Ok(p) && p@ == default_key_path(h@),
            None => r == Err::<String, IdentityError>(IdentityError::PathResolution),
        },
{
    match home {
        Some(h) => Ok(key_path_in_home(h.as_str())),
        None => Err(IdentityError::PathResolution),
    }
}

/// The default path of the private key for the current user: the fixed
/// suffix below the user's home directory. Fails where no home directory can
/// be determined. Touches no file.
pub fn get_default_key_path() -> (r: Result<String, IdentityError>)
    ensures
        match r {
            Ok(path) => exists|home: Seq<char>| path@ == #[trigger] default_key_path(home),
            Err(e) => e == IdentityError::PathResolution,
        },
{
    let home = home_directory();
    let ghost found = home;
    let r = resolve_key_path(home);
    proof {
        if let Some(h) = found {
            assert(r matches Ok(p) && p@ == default_key_path(h@));
        }
    }
    r
}

/// The default path is a function of the home directory: the same home
/// directory always gives the same path.
pub proof fn lemma_default_path_is_determined_by_home(first: Seq<char>, second: Seq<char>)
    requires
        first == second,
    ensures
        default_key_path(first) == default_key_path(second),
{
}

/// The default path lies below the home directory and ends in the fixed
/// suffix.
pub proof fn lemma_default_path_shape(home: Seq<char>)
    ensures
        home.is_prefix_of(default_key_path(home)),
        KEY_SUFFIX@.is_suffix_of(default_key_path(home)),
        default_key_path(home).len() <= home.len() + 1 + KEY_SUFFIX@.len(),
{
    let path = default_key_path(home);
    let suffix = KEY_SUFFIX@;
    assert(path.subrange(0, home.len() as int) =~= home);
    assert(path.subrange(path.len() - suffix.len(), path.len() as int) =~= suffix);
}

/// The public key never lies at the private key's path.
pub proof fn lemma_public_path_differs(private_key_path: Seq<char>)
    ensures
        public_key_path_of(private_key_path) != private_key_path,
{
    reveal_strlit(".pub");
    assert(public_key_path_of(private_key_path).len() == private_key_path.len() + 4);
}

/// Two private keys at different paths have their public keys at different
/// paths.
pub proof fn lemma_public_path_is_injective(first: Seq<char>, second: Seq<char>)
    requires
        public_key_path_of(first) == public_key_path_of(second),
    ensures
        first == second,
{
    let extension = PUBLIC_KEY_EXTENSION@;
    assert(first.len() == second.len()) by {
        assert((first + extension).len() == (second + extension).len());
    }
    assert forall|i: int| 0 <= i < first.len() implies first[i] == second[i] by {
        assert((first + extension)[i] == first[i]);
        assert((second + extension)[i] == second[i]);
    }
    assert(first =~= second);
}

} // verus!
