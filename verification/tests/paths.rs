use config_agent::error::IdentityError;
use config_agent::paths::{
    get_default_key_path, key_path_in_home, public_key_path, resolve_key_path, KEY_SUFFIX,
    PUBLIC_KEY_EXTENSION,
};

#[test]
fn key_path_lies_below_the_home_directory() {
    assert_eq!(
        key_path_in_home("/home/alice"),
        "/home/alice/.config/ewpratten/config-agent-key"
    );
}

#[test]
fn key_path_adds_no_second_separator() {
    assert_eq!(
        key_path_in_home("/home/alice/"),
        "/home/alice/.config/ewpratten/config-agent-key"
    );
    assert_eq!(key_path_in_home("/"), "/.config/ewpratten/config-agent-key");
}

#[test]
fn key_path_of_an_empty_home_is_the_suffix() {
    assert_eq!(key_path_in_home(""), ".config/ewpratten/config-agent-key");
    assert_eq!(key_path_in_home(""), KEY_SUFFIX);
}

#[test]
fn key_path_keeps_a_home_that_is_not_ascii() {
    assert_eq!(
        key_path_in_home("/home/žofie"),
        "/home/žofie/.config/ewpratten/config-agent-key"
    );
    assert_eq!(
        key_path_in_home("/home/名前/"),
        "/home/名前/.config/ewpratten/config-agent-key"
    );
}

#[test]
fn key_path_is_the_same_for_the_same_home() {
    let first = key_path_in_home("/srv/agent");
    let second = key_path_in_home("/srv/agent");
    assert_eq!(first, second);
    assert_ne!(key_path_in_home("/srv/agent"), key_path_in_home("/srv/other"));
}

#[test]
fn public_key_path_adds_the_extension() {
    assert_eq!(PUBLIC_KEY_EXTENSION, ".pub");
    assert_eq!(public_key_path("/a/b/config-agent-key"), "/a/b/config-agent-key.pub");
    assert_eq!(public_key_path("key"), "key.pub");
    assert_eq!(public_key_path(""), ".pub");
}

#[test]
fn public_key_path_keeps_an_extension_that_is_there() {
    assert_eq!(public_key_path("/keys/id.key"), "/keys/id.key.pub");
    assert_eq!(public_key_path("/keys/id.pub"), "/keys/id.pub.pub");
}

#[test]
fn public_key_path_never_equals_the_private_path() {
    for path in ["", "a", "/keys/id", "/keys/id.pub", "/keys/dir/"] {
        assert_ne!(public_key_path(path), path);
    }
}

#[test]
fn resolve_without_home_is_a_path_resolution_error() {
    assert_eq!(resolve_key_path(None), Err(IdentityError::PathResolution));
}

#[test]
fn resolve_with_home_gives_the_default_path() {
    assert_eq!(
        resolve_key_path(Some(String::from("/home/bob"))),
        Ok(String::from("/home/bob/.config/ewpratten/config-agent-key"))
    );
}

#[test]
fn default_path_is_the_same_on_every_call() {
    let first = get_default_key_path();
    let second = get_default_key_path();
    assert_eq!(first, second);
}

#[test]
fn default_path_follows_the_home_directory() {
    let home = directories::BaseDirs::new()
        .and_then(|dirs| dirs.home_dir().to_str().map(|home| home.to_string()));
    match (home, get_default_key_path()) {
        (Some(home), Ok(path)) => {
            assert_eq!(path, key_path_in_home(&home));
            assert!(path.starts_with(&home));
            assert!(path.ends_with(KEY_SUFFIX));
        }
        (None, Err(e)) => assert_eq!(e, IdentityError::PathResolution),
        (home, path) => panic!("home {:?} does not go with path {:?}", home, path),
    }
}
