use wakatime_ls::identity::{bare_identity, derive_identity, ClientInfo};

fn client(name: &str, version: Option<&str>) -> Option<ClientInfo> {
    Some(ClientInfo { name: name.to_string(), version: version.map(|v| v.to_string()) })
}

#[test]
fn bare_identity_is_plugin_name_and_version() {
    assert_eq!(bare_identity(), "wakatime-ls/0.1.0");
}

#[test]
fn identity_without_client_info_is_bare() {
    assert_eq!(derive_identity(&None), "wakatime-ls/0.1.0");
}

#[test]
fn identity_with_client_name_and_version() {
    assert_eq!(
        derive_identity(&client("Foo", Some("1.2"))),
        "Foo/1.2 wakatime-ls/0.1.0 Foo-wakatime/0.1.0"
    );
}

#[test]
fn identity_with_client_without_version_says_unknown() {
    assert_eq!(
        derive_identity(&client("Helix", None)),
        "Helix/unknown wakatime-ls/0.1.0 Helix-wakatime/0.1.0"
    );
}

#[test]
fn identity_keeps_spaces_and_symbols_of_the_editor_name() {
    assert_eq!(
        derive_identity(&client("Visual Studio Code", Some("1.90.0-insider"))),
        "Visual Studio Code/1.90.0-insider wakatime-ls/0.1.0 Visual Studio Code-wakatime/0.1.0"
    );
}

#[test]
fn identity_with_empty_name_and_version() {
    assert_eq!(derive_identity(&client("", Some(""))), "/ wakatime-ls/0.1.0 -wakatime/0.1.0");
}

#[test]
fn identity_ends_in_the_editor_segment() {
    let identity = derive_identity(&client("Zed", Some("0.140")));
    assert!(identity.ends_with(" Zed-wakatime/0.1.0"));
    assert!(identity.starts_with("Zed/0.140 "));
}
