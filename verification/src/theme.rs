use vstd::prelude::*;
use crate::platform::Platform;

verus! {

/// A colour with eight bits per channel. An `alpha` of 255 is fully opaque.
#[derive(Clone, Copy, Debug, PartialEq, Eq, Structural)]
pub struct Rgba {
    pub red: u8,
    pub green: u8,
    pub blue: u8,
    pub alpha: u8,
}

/// How the native title bar of a window is drawn.
#[derive(Clone, Copy, Debug, PartialEq, Eq, Structural)]
pub enum TitleBarStyle {
    /// The platform's ordinary title bar, above the content area.
    Visible,
    /// A transparent title bar drawn over the content area, so that the web
    /// content can render its own.
    Overlay,
}

/// The native cosmetics of the main window on one platform.
#[derive(Clone, Copy, Debug, PartialEq, Eq, Structural)]
pub struct PlatformTheme {
    /// Style of the window's title bar.
    pub title_bar: TitleBarStyle,
    /// Native background colour to set once the window exists; `None` where
    /// the native colour is never touched.
    pub background: Option<Rgba>,
}

/// The opaque off-white behind the web content.
pub open spec fn off_white() -> Rgba {
    Rgba { red: 250, green: 250, blue: 249, alpha: 255 }
}

/// The theme of each platform: native cosmetics where the platform has them,
/// the framework's defaults everywhere else.
pub open spec fn theme_of(platform: Platform) -> PlatformTheme {
    if platform.has_native_cosmetics() {
        PlatformTheme { title_bar: TitleBarStyle::Overlay, background: Some(off_white()) }
    } else {
        PlatformTheme { title_bar: TitleBarStyle::Visible, background: None }
    }
}

/// Selects the cosmetics for `platform`.
pub fn platform_theme(platform: Platform) -> (theme: PlatformTheme)
    ensures
        theme == theme_of(platform),
        theme.title_bar is Overlay <==> platform is MacOs,
        theme.background is Some <==> platform is MacOs,
        theme.background matches Some(colour) ==> colour.red == 250 && colour.green == 250
            && colour.blue == 249 && colour.alpha == 255,
{
    match platform {
        Platform::MacOs => PlatformTheme {
            title_bar: TitleBarStyle::Overlay,
            background: Some(Rgba { red: 250, green: 250, blue: 249, alpha: 255 }),
        },
        Platform::Other => PlatformTheme { title_bar: TitleBarStyle::Visible, background: None },
    }
}

} // verus!
