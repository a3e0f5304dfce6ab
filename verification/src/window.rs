use vstd::prelude::*;
use vstd::string::StringExecFns;
use crate::platform::Platform;
use crate::theme::{platform_theme, theme_of, TitleBarStyle};

verus! {

/// Where a window's content comes from.
#[derive(Clone, Copy, Debug, PartialEq, Eq, Structural)]
pub enum ContentSource {
    /// The front-end bundled with the application, at the framework's
    /// default location.
    Bundled,
}

/// Everything the framework is told about a window before it is built.
#[derive(Clone, Debug)]
pub struct WindowConfig {
    /// Identifier of the window within the application.
    pub label: String,
    /// Text of the native title bar.
    pub title: String,
    /// What the window displays.
    pub content: ContentSource,
    /// Inner width in logical pixels.
    pub width: u32,
    /// Inner height in logical pixels.
    pub height: u32,
    /// Whether the user may resize the window.
    pub resizable: bool,
    /// How the native title bar is drawn.
    pub title_bar: TitleBarStyle,
}

/// Identifier of the main window.
pub open spec fn main_label() -> Seq<char> {
    seq!['m', 'a', 'i', 'n']
}

impl WindowConfig {
    /// Whether this is the description of the main window on `platform`:
    /// labelled `main`, untitled, showing the bundled content, 800 by 600
    /// logical pixels, of fixed size, with the platform's title bar style.
    pub open spec fn is_main_for(&self, platform: Platform) -> bool {
        &&& self.label@ == main_label()
        &&& self.title@ == Seq::<char>::empty()
        &&& self.content == ContentSource::Bundled
        &&& self.width == 800
        &&& self.height == 600
        &&& !self.resizable
        &&& self.title_bar == theme_of(platform).title_bar
    }
}

/// Describes the application's one window for `platform`.
pub fn main_window(platform: Platform) -> (window: WindowConfig)
    ensures
        window.is_main_for(platform),
        window.title_bar is Overlay <==> platform is MacOs,
{
    let label = String::from_str("main");
    proof {
        reveal_strlit("main");
        assert(label@ =~= main_label());
    }
    WindowConfig {
        label,
        title: String::new(),
        content: ContentSource::Bundled,
        width: 800,
        height: 600,
        resizable: false,
        title_bar: platform_theme(platform).title_bar,
    }
}

} // verus!
