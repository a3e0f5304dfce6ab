//! Startup description of a single-window desktop shell.
//!
//! The shell hosts bundled web content in one fixed-size window. This crate
//! holds everything about its startup that can be decided without touching
//! the windowing framework: which capabilities are registered, what the main
//! window looks like, which native cosmetics a platform receives, and the
//! order in which startup proceeds or ends.

pub mod lifecycle;
pub mod platform;
pub mod plugins;
pub mod theme;
pub mod trace;
pub mod window;

pub use lifecycle::{next_action, step, Action, Event, Exit, FatalError, Phase};
pub use platform::Platform;
pub use plugins::{plugins, Plugin};
pub use theme::{platform_theme, PlatformTheme, Rgba, TitleBarStyle};
pub use trace::replay;
pub use window::{main_window, ContentSource, WindowConfig};
