use desktop_shell::{
    main_window, platform_theme, plugins, ContentSource, Platform, Plugin, Rgba, TitleBarStyle,
};

#[test]
fn main_window_is_labelled_main_and_untitled() {
    let window = main_window(Platform::Other);
    assert_eq!(window.label, "main");
    assert_eq!(window.title, "");
    assert_eq!(window.content, ContentSource::Bundled);
}

#[test]
fn main_window_is_800_by_600_and_fixed() {
    for platform in [Platform::MacOs, Platform::Other] {
        let window = main_window(platform);
        assert_eq!(window.width, 800);
        assert_eq!(window.height, 600);
        assert!(!window.resizable);
        assert_eq!(window.label, "main");
        assert_eq!(window.title, "");
    }
}

#[test]
fn main_window_dimensions_convert_exactly() {
    let window = main_window(Platform::MacOs);
    assert_eq!(f64::from(window.width), 800.0);
    assert_eq!(f64::from(window.height), 600.0);
}

#[test]
fn title_bar_is_overlay_on_macos() {
    assert_eq!(main_window(Platform::MacOs).title_bar, TitleBarStyle::Overlay);
    assert_eq!(platform_theme(Platform::MacOs).title_bar, TitleBarStyle::Overlay);
}

#[test]
fn title_bar_is_default_elsewhere() {
    assert_eq!(main_window(Platform::Other).title_bar, TitleBarStyle::Visible);
    assert_eq!(platform_theme(Platform::Other).title_bar, TitleBarStyle::Visible);
}

#[test]
fn window_title_bar_matches_theme() {
    for platform in [Platform::MacOs, Platform::Other] {
        assert_eq!(main_window(platform).title_bar, platform_theme(platform).title_bar);
    }
}

#[test]
fn background_is_opaque_off_white_on_macos() {
    let theme = platform_theme(Platform::MacOs);
    assert_eq!(
        theme.background,
        Some(Rgba { red: 250, green: 250, blue: 249, alpha: 255 })
    );
}

#[test]
fn background_channels_as_unit_fractions() {
    let colour = platform_theme(Platform::MacOs).background.unwrap();
    let fraction = |channel: u8| f64::from(channel) / 255.0;
    assert!((fraction(colour.red) - 250.0 / 255.0).abs() < 1e-6);
    assert!((fraction(colour.green) - 250.0 / 255.0).abs() < 1e-6);
    assert!((fraction(colour.blue) - 249.0 / 255.0).abs() < 1e-6);
    assert!((fraction(colour.alpha) - 1.0).abs() < 1e-6);
}

#[test]
fn background_is_untouched_elsewhere() {
    assert_eq!(platform_theme(Platform::Other).background, None);
}

#[test]
fn native_cosmetics_only_on_macos() {
    assert!(Platform::MacOs.native_cosmetics());
    assert!(!Platform::Other.native_cosmetics());
}

#[test]
fn plugins_are_shortcut_then_store() {
    assert_eq!(plugins(), vec![Plugin::GlobalShortcut, Plugin::Store]);
}

#[test]
fn each_plugin_is_registered_once() {
    let list = plugins();
    for plugin in [Plugin::GlobalShortcut, Plugin::Store] {
        assert_eq!(list.iter().filter(|p| **p == plugin).count(), 1);
    }
    assert_eq!(list.len(), 2);
}
