use std::path::{Path, PathBuf};

use ultidesk::endpoint::{handshake_path, socket_path};
use ultidesk::paths::{resolve_config_dir, resolve_runtime_dir, ConfigEnv, RuntimeEnv};

fn env(override_dir: Option<&str>, appdata: Option<&str>, xdg: Option<&str>, home: Option<&str>) -> ConfigEnv {
    ConfigEnv {
        override_dir: override_dir.map(String::from),
        appdata: appdata.map(String::from),
        xdg_config_home: xdg.map(String::from),
        home: home.map(String::from),
    }
}

fn runtime_env(
    override_dir: Option<&str>,
    local_appdata: Option<&str>,
    xdg_runtime: Option<&str>,
    user: Option<&str>,
) -> RuntimeEnv {
    RuntimeEnv {
        override_dir: override_dir.map(String::from),
        local_appdata: local_appdata.map(String::from),
        xdg_runtime_dir: xdg_runtime.map(String::from),
        temp_dir: String::from("/tmp"),
        user: user.map(String::from),
    }
}

fn text(p: PathBuf) -> String {
    p.to_string_lossy().into_owned()
}

#[test]
fn the_runtime_override_wins_on_both_platforms() {
    for windows in [true, false] {
        let e = runtime_env(Some("/dev-dir"), Some("C:/Local"), Some("/run/user/1000"), None);
        assert_eq!(resolve_runtime_dir(&e, windows), text(PathBuf::from("/dev-dir")));
    }
}

#[test]
fn windows_runtime_state_is_machine_local_not_roaming() {
    let e = runtime_env(None, Some("C:/Users/n/AppData/Local"), None, None);
    assert_eq!(
        resolve_runtime_dir(&e, true),
        text(PathBuf::from("C:/Users/n/AppData/Local").join("Ultidesk"))
    );
}

#[test]
fn linux_uses_the_xdg_runtime_dir() {
    let e = runtime_env(None, None, Some("/run/user/1000"), Some("nosh"));
    assert_eq!(resolve_runtime_dir(&e, false), text(PathBuf::from("/run/user/1000/ultidesk")));
}

#[test]
fn the_linux_fallback_is_named_per_user() {
    let a = runtime_env(None, None, None, Some("alice"));
    let b = runtime_env(None, None, None, Some("bob"));
    assert_eq!(resolve_runtime_dir(&a, false), text(PathBuf::from("/tmp/ultidesk-alice")));
    assert_ne!(resolve_runtime_dir(&a, false), resolve_runtime_dir(&b, false));
}

#[test]
fn a_runtime_dir_is_always_produced() {
    for windows in [true, false] {
        let e = runtime_env(None, None, None, None);
        assert!(Path::new(&resolve_runtime_dir(&e, windows)).is_absolute());
    }
}

#[test]
fn the_override_wins_on_both_platforms() {
    for windows in [true, false] {
        let e = env(Some("/portable"), Some("C:/AppData"), Some("/xdg"), Some("/home/n"));
        assert_eq!(
            resolve_config_dir(&e, windows),
            Some(text(PathBuf::from("/portable"))),
            "override ignored (windows={windows})"
        );
    }
}

#[test]
fn windows_uses_appdata() {
    let e = env(None, Some("C:/Users/n/AppData/Roaming"), None, None);
    assert_eq!(
        resolve_config_dir(&e, true),
        Some(text(PathBuf::from("C:/Users/n/AppData/Roaming").join("Ultidesk")))
    );
}

#[test]
fn linux_prefers_xdg_config_home() {
    let e = env(None, None, Some("/home/n/.config"), Some("/home/n"));
    assert_eq!(
        resolve_config_dir(&e, false),
        Some(text(PathBuf::from("/home/n/.config").join("ultidesk")))
    );
}

#[test]
fn linux_falls_back_to_home_when_xdg_is_unset() {
    let e = env(None, None, None, Some("/home/n"));
    assert_eq!(resolve_config_dir(&e, false), Some(text(PathBuf::from("/home/n/.config/ultidesk"))));
}

#[test]
fn no_home_and_no_appdata_means_no_config_directory() {
    assert_eq!(resolve_config_dir(&ConfigEnv::default(), true), None);
    assert_eq!(resolve_config_dir(&ConfigEnv::default(), false), None);
}

#[test]
fn windows_does_not_consult_xdg_and_linux_does_not_consult_appdata() {
    let e = env(None, Some("C:/AppData"), Some("/xdg"), None);
    assert_eq!(resolve_config_dir(&e, true), Some(text(PathBuf::from("C:/AppData").join("Ultidesk"))));
    assert_eq!(resolve_config_dir(&e, false), Some(text(PathBuf::from("/xdg").join("ultidesk"))));
}

#[test]
fn the_handshake_lives_beside_the_socket() {
    let dir = resolve_runtime_dir(&runtime_env(None, None, Some("/run/user/1000"), None), false);
    let handshake = handshake_path(&dir);
    assert_eq!(Path::new(&handshake).parent(), Some(Path::new(&dir)));
    let socket = socket_path(&dir);
    assert_eq!(Path::new(&socket).parent(), Path::new(&handshake).parent());
}

#[test]
fn a_trailing_slash_is_not_doubled() {
    let e = env(None, None, Some("/xdg/"), None);
    assert_eq!(resolve_config_dir(&e, false), Some(String::from("/xdg/ultidesk")));
}

#[test]
fn a_user_without_a_name_still_gets_a_fallback() {
    let e = runtime_env(None, None, None, None);
    assert_eq!(resolve_runtime_dir(&e, false), String::from("/tmp/ultidesk-user"));
    assert_eq!(resolve_runtime_dir(&e, true), String::from("/tmp/Ultidesk"));
}

#[test]
fn an_empty_runtime_env_resolves_under_an_empty_temp_dir() {
    let e = RuntimeEnv::default();
    assert_eq!(resolve_runtime_dir(&e, false), String::from("ultidesk-user"));
}
