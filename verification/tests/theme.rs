use swapeme::color::{ColorTheme, RgbaHexColor};
use swapeme::theme::spicetify::ThemeSpicetify;
use swapeme::theme::wallpaper_engine::apply::{ThemeWEPlaylist, ThemeWallpaperEngine};
use swapeme::theme::windows::color_scheme::WindowsColorScheme;
use swapeme::theme::windows::wallpaper::WindowsWallpaper;
use swapeme::theme::windows::ThemeWindows;
use swapeme::theme::{Integration, Theme, ThemeApp, ThemeAuthor};

fn empty() -> Theme {
    Theme { version: None, author: None, wallpaper_engine: None, spicetify: None, windows: None }
}

#[test]
fn test_theme() {
    let theme = Theme {
        version: Some("1".to_string()),
        author: Some(ThemeAuthor { name: "me".to_string(), url: None }),
        wallpaper_engine: Some(ThemeWallpaperEngine { wallpapers: None, playlist: None }),
        spicetify: Some(ThemeSpicetify {
            name: "Foo".to_string(),
            color_scheme: None,
            url: None,
        }),
        windows: None,
    };
    assert_eq!(theme.apply(), [Integration::WallpaperEngine, Integration::Spicetify]);
}

#[test]
fn a_theme_without_parts_touches_nothing() {
    assert!(empty().apply().is_empty());
    let described = Theme {
        version: Some("2.0".to_string()),
        author: Some(ThemeAuthor {
            name: "someone".to_string(),
            url: Some("https://example.org".to_string()),
        }),
        ..empty()
    };
    assert!(described.apply().is_empty());
}

#[test]
fn parts_are_dealt_with_in_order() {
    let windows = ThemeWindows { wallpaper: None, color_scheme: None };
    let all = Theme {
        wallpaper_engine: Some(ThemeWallpaperEngine {
            wallpapers: None,
            playlist: Some(vec![ThemeWEPlaylist { monitor: 0 }]),
        }),
        spicetify: Some(ThemeSpicetify { name: "x".to_string(), color_scheme: None, url: None }),
        windows: Some(windows),
        ..empty()
    };
    assert_eq!(
        all.apply(),
        [Integration::WallpaperEngine, Integration::Spicetify, Integration::Windows]
    );
    let only_windows =
        Theme { windows: Some(ThemeWindows { wallpaper: None, color_scheme: None }), ..empty() };
    assert_eq!(only_windows.apply(), [Integration::Windows]);
}

#[test]
fn colour_scheme_writes_the_flags_that_are_set() {
    let scheme = WindowsColorScheme {
        system_color_theme: Some(ColorTheme::Dark),
        app_theme: Some(ColorTheme::Light),
        accent_color: Some(RgbaHexColor { r: 1, g: 2, b: 3, a: 255 }),
    };
    let change = scheme.apply();
    assert_eq!(change.key, "Software\\Microsoft\\Windows\\CurrentVersion\\Themes\\Personalize");
    let values: Vec<(&str, u32)> =
        change.values.iter().map(|v| (v.name.as_str(), v.value)).collect();
    assert_eq!(values, [("AppsUseLightTheme", 1), ("SystemUsesLightTheme", 0)]);
    assert_eq!(change.notice, "ImmersiveColorSet");
    assert_eq!(change.timeout_ms, 5000);

    let only_system = WindowsColorScheme {
        system_color_theme: Some(ColorTheme::Light),
        app_theme: None,
        accent_color: None,
    };
    let values: Vec<(String, u32)> =
        only_system.apply().values.into_iter().map(|v| (v.name, v.value)).collect();
    assert_eq!(values, [("SystemUsesLightTheme".to_string(), 1)]);

    let nothing = WindowsColorScheme::get_current();
    assert!(nothing.system_color_theme.is_none() && nothing.app_theme.is_none());
    assert!(nothing.accent_color.is_none());
    let change = nothing.apply();
    assert!(change.values.is_empty());
    assert_eq!(change.notice, "ImmersiveColorSet");
    assert_eq!(ColorTheme::Light.flag(), 1);
    assert_eq!(ColorTheme::Dark.flag(), 0);
}

#[test]
fn system_settings() {
    let windows = ThemeWindows {
        wallpaper: Some(WindowsWallpaper::Single { url: "https://example.org/a.png".to_string() }),
        color_scheme: None,
    };
    assert!(windows.apply().is_none());
    let windows = ThemeWindows {
        wallpaper: Some(WindowsWallpaper::Diaporama { urls: vec![] }),
        color_scheme: Some(WindowsColorScheme {
            system_color_theme: None,
            app_theme: Some(ColorTheme::Dark),
            accent_color: None,
        }),
    };
    let change = windows.apply().unwrap();
    assert_eq!(change.values.len(), 1);
    assert_eq!(change.values[0].name, "AppsUseLightTheme");
    assert_eq!(change.values[0].value, 0);
    let current = ThemeWindows::get_current();
    assert!(current.wallpaper.is_none() && current.color_scheme.is_none());
    assert_eq!(ThemeWindows::get_app(), Some(()));
    assert_eq!(WindowsColorScheme::get_app(), Some(()));
}

#[test]
fn names_of_the_applications() {
    assert_eq!(<ThemeWallpaperEngine as ThemeApp>::name(), "Wallpaper engine");
    assert_eq!(<ThemeSpicetify as ThemeApp>::name(), "Spotify (Spicetify)");
    assert_eq!(<ThemeWindows as ThemeApp>::name(), "Windows");
    assert_eq!(<WindowsColorScheme as ThemeApp>::name(), "Windows color scheme");
}
