use focuskeyd::paths::{config_path, ConfigPathError};

fn b(s: &str) -> Option<Vec<u8>> {
    Some(s.as_bytes().to_vec())
}

#[test]
fn argument_comes_first() {
    assert_eq!(config_path(b("my.toml"), b("/x"), b("/home/u")).unwrap(), b"my.toml".to_vec());
}

#[test]
fn xdg_config_home_comes_next() {
    assert_eq!(
        config_path(None, b("/home/u/.cfg"), b("/home/u")).unwrap(),
        b"/home/u/.cfg/focuskeyd/config.toml".to_vec()
    );
    assert_eq!(
        config_path(None, b("/home/u/.cfg/"), None).unwrap(),
        b"/home/u/.cfg/focuskeyd/config.toml".to_vec()
    );
    assert_eq!(config_path(None, b(""), None).unwrap(), b"focuskeyd/config.toml".to_vec());
}

#[test]
fn home_comes_last() {
    assert_eq!(
        config_path(None, None, b("/home/u")).unwrap(),
        b"/home/u/.config/focuskeyd/config.toml".to_vec()
    );
    assert_eq!(
        config_path(None, None, b("/")).unwrap(),
        b"/.config/focuskeyd/config.toml".to_vec()
    );
}

#[test]
fn joins_like_path_join() {
    for base in ["/home/u", "/home/u/", "", "rel/dir", "/"] {
        let expected = std::path::PathBuf::from(base).join(".config/focuskeyd/config.toml");
        assert_eq!(
            config_path(None, None, b(base)).unwrap(),
            expected.into_os_string().into_encoded_bytes()
        );
    }
}

#[test]
fn no_home_is_an_error() {
    let err = config_path(None, None, None).unwrap_err();
    assert_eq!(err, ConfigPathError::HomeNotSet);
    assert_eq!(err.message(), "HOME is not set");
}
