use vstd::prelude::*;
use crate::platform::Platform;
use crate::theme::{platform_theme, theme_of, Rgba};

verus! {

/// The two ways startup can fail. Both end the process: there is no retry
/// and no recovery.
#[derive(Clone, Copy, Debug, PartialEq, Eq, Structural)]
pub enum FatalError {
    /// The framework could not realise the main window as described.
    WindowConstruction,
    /// The framework could not start its event loop.
    RunLoopStart,
}

/// How the process ended.
#[derive(Clone, Copy, Debug, PartialEq, Eq, Structural)]
pub enum Exit {
    /// The event loop returned.
    Normal,
    /// Startup was aborted.
    Fatal(FatalError),
}

/// Where startup stands.
#[derive(Clone, Copy, Debug, PartialEq, Eq, Structural)]
pub enum Phase {
    /// Nothing has been done yet.
    Uninitialized,
    /// Both capabilities are registered with the framework.
    PluginsRegistered,
    /// The main window exists.
    WindowBuilt,
    /// The window's native cosmetics are in place.
    Themed,
    /// The framework's event loop has taken over.
    Running,
    /// The process is over.
    Terminated(Exit),
}

/// What the framework reports back while startup proceeds.
#[derive(Clone, Copy, Debug, PartialEq, Eq, Structural)]
pub enum Event {
    /// The capabilities were registered.
    PluginsRegistered,
    /// The main window was built.
    WindowBuilt,
    /// Building the main window failed.
    WindowFailed,
    /// The native background colour was set.
    ThemeApplied,
    /// The window's native handle could not be obtained.
    ThemeFailed,
    /// The event loop started.
    RunLoopStarted,
    /// The event loop could not start.
    RunLoopFailed,
    /// The event loop returned.
    RunLoopExited,
}

/// What the shell does next.
#[derive(Clone, Copy, Debug, PartialEq, Eq, Structural)]
pub enum Action {
    /// Register the capabilities with the framework.
    RegisterPlugins,
    /// Build the main window.
    BuildWindow,
    /// Set the native background of the window to this colour.
    TintBackground(Rgba),
    /// Hand control to the framework's event loop.
    StartRunLoop,
}

impl Event {
    /// Whether this event reports how `action` went.
    pub open spec fn answers(self, action: Action) -> bool {
        match (self, action) {
            (Event::PluginsRegistered, Action::RegisterPlugins) => true,
            (Event::WindowBuilt, Action::BuildWindow) => true,
            (Event::WindowFailed, Action::BuildWindow) => true,
            (Event::ThemeApplied, Action::TintBackground(_)) => true,
            (Event::ThemeFailed, Action::TintBackground(_)) => true,
            (Event::RunLoopStarted, Action::StartRunLoop) => true,
            (Event::RunLoopFailed, Action::StartRunLoop) => true,
            _ => false,
        }
    }
}

impl Phase {
    /// Position of the phase along the one path startup can take.
    pub open spec fn rank(self) -> nat {
        match self {
            Phase::Uninitialized => 0,
            Phase::PluginsRegistered => 1,
            Phase::WindowBuilt => 2,
            Phase::Themed => 3,
            Phase::Running => 4,
            Phase::Terminated(_) => 5,
        }
    }
}

/// The phase that follows `phase` when `event` arrives, or `None` where
/// `event` cannot arrive in `phase`.
///
/// Native cosmetics are applied between building the window and starting
/// the event loop, and only on a platform that has them. Either failure
/// while the window is set up counts as a failure to construct it.
pub open spec fn next_phase(platform: Platform, phase: Phase, event: Event) -> Option<Phase> {
    match (phase, event) {
        (Phase::Uninitialized, Event::PluginsRegistered) => Some(Phase::PluginsRegistered),
        (Phase::PluginsRegistered, Event::WindowBuilt) => Some(Phase::WindowBuilt),
        (Phase::PluginsRegistered, Event::WindowFailed) => Some(
            Phase::Terminated(Exit::Fatal(FatalError::WindowConstruction)),
        ),
        (Phase::WindowBuilt, Event::ThemeApplied) => if platform.has_native_cosmetics() {
            Some(Phase::Themed)
        } else {
            None
        },
        (Phase::WindowBuilt, Event::ThemeFailed) => if platform.has_native_cosmetics() {
            Some(Phase::Terminated(Exit::Fatal(FatalError::WindowConstruction)))
        } else {
            None
        },
        (Phase::WindowBuilt, Event::RunLoopStarted) => if platform.has_native_cosmetics() {
            None
        } else {
            Some(Phase::Running)
        },
        (Phase::WindowBuilt, Event::RunLoopFailed) => if platform.has_native_cosmetics() {
            None
        } else {
            Some(Phase::Terminated(Exit::Fatal(FatalError::RunLoopStart)))
        },
        (Phase::Themed, Event::RunLoopStarted) => Some(Phase::Running),
        (Phase::Themed, Event::RunLoopFailed) => Some(
            Phase::Terminated(Exit::Fatal(FatalError::RunLoopStart)),
        ),
        (Phase::Running, Event::RunLoopExited) => Some(Phase::Terminated(Exit::Normal)),
        _ => None,
    }
}

/// Advances startup by one event.
///
/// Returns the next phase, or `None` where `event` cannot arrive in `phase`.
/// Every step moves strictly forward, so no phase is entered twice, and a
/// terminated startup accepts nothing more.
pub fn step(platform: Platform, phase: Phase, event: Event) -> (next: Option<Phase>)
    ensures
        next == next_phase(platform, phase, event),
        next matches Some(after) ==> phase.rank() < after.rank(),
        phase is Terminated ==> next is None,
{
    let dressed = platform.native_cosmetics();
    let fatal_window = Phase::Terminated(Exit::Fatal(FatalError::WindowConstruction));
    let fatal_loop = Phase::Terminated(Exit::Fatal(FatalError::RunLoopStart));
    match phase {
        Phase::Uninitialized => match event {
            Event::PluginsRegistered => Some(Phase::PluginsRegistered),
            _ => None,
        },
        Phase::PluginsRegistered => match event {
            Event::WindowBuilt => Some(Phase::WindowBuilt),
            Event::WindowFailed => Some(fatal_window),
            _ => None,
        },
        Phase::WindowBuilt => match event {
            Event::ThemeApplied if dressed => Some(Phase::Themed),
            Event::ThemeFailed if dressed => Some(fatal_window),
            Event::RunLoopStarted if !dressed => Some(Phase::Running),
            Event::RunLoopFailed if !dressed => Some(fatal_loop),
            _ => None,
        },
        Phase::Themed => match event {
            Event::RunLoopStarted => Some(Phase::Running),
            Event::RunLoopFailed => Some(fatal_loop),
            _ => None,
        },
        Phase::Running => match event {
            Event::RunLoopExited => Some(Phase::Terminated(Exit::Normal)),
            _ => None,
        },
        Phase::Terminated(_) => None,
    }
}

/// The action that `phase` calls for, or `None` where the shell has
/// nothing left to do: while the event loop runs and after the process
/// is over.
pub open spec fn action_in(platform: Platform, phase: Phase) -> Option<Action> {
    match phase {
        Phase::Uninitialized => Some(Action::RegisterPlugins),
        Phase::PluginsRegistered => Some(Action::BuildWindow),
        Phase::WindowBuilt => match theme_of(platform).background {
            Some(colour) => Some(Action::TintBackground(colour)),
            None => Some(Action::StartRunLoop),
        },
        Phase::Themed => Some(Action::StartRunLoop),
        Phase::Running => None,
        Phase::Terminated(_) => None,
    }
}

/// Decides what to do in `phase`.
///
/// The events accepted in a phase are exactly the reports on its action;
/// while the event loop runs, the one event accepted is its return. The
/// background is tinted only on a platform with native cosmetics, and then
/// with the colour of its theme.
pub fn next_action(platform: Platform, phase: Phase) -> (action: Option<Action>)
    ensures
        action == action_in(platform, phase),
        forall|event: Event| #[trigger]
            next_phase(platform, phase, event) is Some <==> match action {
                Some(a) => event.answers(a),
                None => phase is Running && event == Event::RunLoopExited,
            },
        action matches Some(Action::TintBackground(colour)) ==> platform.has_native_cosmetics()
            && phase is WindowBuilt && theme_of(platform).background == Some(colour),
        action == Some(Action::BuildWindow) <==> phase is PluginsRegistered,
        action == Some(Action::RegisterPlugins) <==> phase is Uninitialized,
{
    match phase {
        Phase::Uninitialized => Some(Action::RegisterPlugins),
        Phase::PluginsRegistered => Some(Action::BuildWindow),
        Phase::WindowBuilt => match platform_theme(platform).background {
            Some(colour) => Some(Action::TintBackground(colour)),
            None => Some(Action::StartRunLoop),
        },
        Phase::Themed => Some(Action::StartRunLoop),
        Phase::Running | Phase::Terminated(_) => None,
    }
}

} // verus!
