use paste_trigger::{paste_modifier, Key, Platform};

#[test]
fn macos_pastes_with_command() {
    assert_eq!(paste_modifier(Platform::MacOs), Key::Meta);
}

#[test]
fn other_platforms_paste_with_control() {
    assert_eq!(paste_modifier(Platform::Other), Key::Control);
}

#[test]
fn macos_is_recognised_by_its_target_name() {
    assert_eq!(Platform::from_target_os("macos"), Platform::MacOs);
}

#[test]
fn every_other_target_name_is_other() {
    for name in ["linux", "windows", "freebsd", "android", "ios", "openbsd", "netbsd", "dragonfly", "solaris"] {
        assert_eq!(Platform::from_target_os(name), Platform::Other, "{}", name);
    }
}

#[test]
fn target_name_comparison_is_exact() {
    for name in ["", "MacOS", "macOS", "MACOS", "macos ", " macos", "mac", "macosx", "maco", "darwin", "m\u{e4}cos", "macoz"] {
        assert_eq!(Platform::from_target_os(name), Platform::Other, "{:?}", name);
    }
}

#[test]
fn modifier_follows_the_target_name() {
    assert_eq!(paste_modifier(Platform::from_target_os("macos")), Key::Meta);
    assert_eq!(paste_modifier(Platform::from_target_os("linux")), Key::Control);
    assert_eq!(paste_modifier(Platform::from_target_os("windows")), Key::Control);
}
