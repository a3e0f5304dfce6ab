use vstd::prelude::*;
use crate::lifecycle::{next_phase, step, Event, Exit, FatalError, Phase};
use crate::platform::Platform;

verus! {

/// The phase reached from `start` once `events` have arrived in order, or
/// `None` where one of them could not arrive when it did.
pub open spec fn phase_after(platform: Platform, start: Phase, events: Seq<Event>) -> Option<Phase>
    decreases events.len(),
{
    if events.len() == 0 {
        Some(start)
    } else {
        match phase_after(platform, start, events.drop_last()) {
            Some(phase) => next_phase(platform, phase, events.last()),
            None => None,
        }
    }
}

/// The events of a whole startup up to the running event loop.
pub open spec fn events_until_running(platform: Platform) -> Seq<Event> {
    if platform.has_native_cosmetics() {
        seq![
            Event::PluginsRegistered,
            Event::WindowBuilt,
            Event::ThemeApplied,
            Event::RunLoopStarted,
        ]
    } else {
        seq![Event::PluginsRegistered, Event::WindowBuilt, Event::RunLoopStarted]
    }
}

/// The events of a startup that got as far as starting the event loop, and
/// failed there.
pub open spec fn events_until_loop_failure(platform: Platform) -> Seq<Event> {
    if platform.has_native_cosmetics() {
        seq![
            Event::PluginsRegistered,
            Event::WindowBuilt,
            Event::ThemeApplied,
            Event::RunLoopFailed,
        ]
    } else {
        seq![Event::PluginsRegistered, Event::WindowBuilt, Event::RunLoopFailed]
    }
}

/// The one history that leads a fresh startup to `phase`, for every phase
/// but a failed window, which has two.
pub open spec fn is_history_of(platform: Platform, events: Seq<Event>, phase: Phase) -> bool {
    match phase {
        Phase::Uninitialized => events =~= Seq::<Event>::empty(),
        Phase::PluginsRegistered => events =~= seq![Event::PluginsRegistered],
        Phase::WindowBuilt => events =~= seq![Event::PluginsRegistered, Event::WindowBuilt],
        Phase::Themed => platform.has_native_cosmetics() && events =~= seq![
            Event::PluginsRegistered,
            Event::WindowBuilt,
            Event::ThemeApplied,
        ],
        Phase::Running => events =~= events_until_running(platform),
        Phase::Terminated(Exit::Normal) => events =~= events_until_running(platform).push(
            Event::RunLoopExited,
        ),
        Phase::Terminated(Exit::Fatal(FatalError::RunLoopStart)) => events
            =~= events_until_loop_failure(platform),
        Phase::Terminated(Exit::Fatal(FatalError::WindowConstruction)) => {
            ||| events =~= seq![Event::PluginsRegistered, Event::WindowFailed]
            ||| platform.has_native_cosmetics() && events =~= seq![
                Event::PluginsRegistered,
                Event::WindowBuilt,
                Event::ThemeFailed,
            ]
        },
    }
}

/// Feeds `events` to a startup in `start`, one after the other.
///
/// Returns the phase reached, or `None` as soon as an event arrives that
/// the phase of that moment does not accept.
pub fn replay(platform: Platform, start: Phase, events: &Vec<Event>) -> (end: Option<Phase>)
    ensures
        end == phase_after(platform, start, events@),
{
    let mut phase = start;
    let mut done: usize = 0;
    while done < events.len()
        invariant
            done <= events.len(),
            phase_after(platform, start, events@.take(done as int)) == Some(phase),
        decreases events.len() - done,
    {
        let ghost seen = events@.take(done + 1);
        proof {
            assert(seen.drop_last() =~= events@.take(done as int));
            assert(seen.last() == events@[done as int]);
        }
        match step(platform, phase, events[done]) {
            Some(next) => {
                phase = next;
            },
            None => {
                proof {
                    lemma_rejection_is_final(platform, start, events@, done + 1);
                }
                return None;
            },
        }
        done += 1;
    }
    proof {
        assert(events@.take(done as int) =~= events@);
    }
    Some(phase)
}

/// Once a prefix of `events` has been rejected, so is the whole.
pub proof fn lemma_rejection_is_final(
    platform: Platform,
    start: Phase,
    events: Seq<Event>,
    seen: int,
)
    requires
        0 <= seen <= events.len(),
        phase_after(platform, start, events.take(seen)) is None,
    ensures
        phase_after(platform, start, events) is None,
    decreases events.len(),
{
    if seen == events.len() {
        assert(events.take(seen) =~= events);
    } else {
        assert(events.drop_last().take(seen) =~= events.take(seen));
        lemma_rejection_is_final(platform, start, events.drop_last(), seen);
    }
}

/// Startup follows one path. Whatever events a fresh startup has accepted,
/// they are the history of the phase it is in.
pub proof fn law_accepted_events_are_history(
    platform: Platform,
    events: Seq<Event>,
    phase: Phase,
)
    requires
        phase_after(platform, Phase::Uninitialized, events) == Some(phase),
    ensures
        is_history_of(platform, events, phase),
    decreases events.len(),
{
    if events.len() == 0 {
        assert(events =~= Seq::<Event>::empty());
    } else {
        let earlier = events.drop_last();
        let before = phase_after(platform, Phase::Uninitialized, earlier).unwrap();
        law_accepted_events_are_history(platform, earlier, before);
        assert(events =~= earlier.push(events.last()));
    }
}

/// One more accepted event extends an accepted sequence.
pub proof fn lemma_accepts_one_more(
    platform: Platform,
    events: Seq<Event>,
    phase: Phase,
    event: Event,
)
    requires
        phase_after(platform, Phase::Uninitialized, events) == Some(phase),
    ensures
        phase_after(platform, Phase::Uninitialized, events.push(event)) == next_phase(
            platform,
            phase,
            event,
        ),
{
    assert(events.push(event).drop_last() =~= events);
}

/// Every history is accepted: a fresh startup that receives the history of
/// `phase` is in `phase` afterwards.
pub proof fn law_history_is_accepted(platform: Platform, events: Seq<Event>, phase: Phase)
    requires
        is_history_of(platform, events, phase),
    ensures
        phase_after(platform, Phase::Uninitialized, events) == Some(phase),
{
    let none = Seq::<Event>::empty();
    let registered = none.push(Event::PluginsRegistered);
    let built = registered.push(Event::WindowBuilt);
    lemma_accepts_one_more(platform, none, Phase::Uninitialized, Event::PluginsRegistered);
    lemma_accepts_one_more(platform, registered, Phase::PluginsRegistered, Event::WindowBuilt);
    lemma_accepts_one_more(platform, registered, Phase::PluginsRegistered, Event::WindowFailed);
    let ready = if platform.has_native_cosmetics() {
        lemma_accepts_one_more(platform, built, Phase::WindowBuilt, Event::ThemeApplied);
        lemma_accepts_one_more(platform, built, Phase::WindowBuilt, Event::ThemeFailed);
        built.push(Event::ThemeApplied)
    } else {
        built
    };
    let ready_phase = if platform.has_native_cosmetics() {
        Phase::Themed
    } else {
        Phase::WindowBuilt
    };
    let running = ready.push(Event::RunLoopStarted);
    lemma_accepts_one_more(platform, ready, ready_phase, Event::RunLoopStarted);
    lemma_accepts_one_more(platform, ready, ready_phase, Event::RunLoopFailed);
    lemma_accepts_one_more(platform, running, Phase::Running, Event::RunLoopExited);
    assert(running =~= events_until_running(platform));
    assert(ready.push(Event::RunLoopFailed) =~= events_until_loop_failure(platform));
    match phase {
        Phase::Uninitialized => {
            assert(events =~= none);
        },
        Phase::PluginsRegistered => {
            assert(events =~= registered);
        },
        Phase::WindowBuilt => {
            assert(events =~= built);
        },
        Phase::Themed => {
            assert(events =~= ready);
        },
        Phase::Running => {
            assert(events =~= running);
        },
        Phase::Terminated(Exit::Normal) => {
            assert(events =~= running.push(Event::RunLoopExited));
        },
        Phase::Terminated(Exit::Fatal(FatalError::RunLoopStart)) => {
            assert(events =~= ready.push(Event::RunLoopFailed));
        },
        Phase::Terminated(Exit::Fatal(FatalError::WindowConstruction)) => {
            if events.len() == 2 {
                assert(events =~= registered.push(Event::WindowFailed));
            } else {
                assert(events =~= built.push(Event::ThemeFailed));
            }
        },
    }
}

/// Startup only moves forward: a fresh startup has accepted at most as many
/// events as its phase has predecessors, and never more than five.
pub proof fn law_startup_moves_forward(platform: Platform, events: Seq<Event>, phase: Phase)
    requires
        phase_after(platform, Phase::Uninitialized, events) == Some(phase),
    ensures
        events.len() <= phase.rank() <= 5,
{
    law_accepted_events_are_history(platform, events, phase);
}

/// One startup builds one window: the window is built by the second event
/// or not at all, and a startup that has applied cosmetics or reached the
/// event loop has built it.
pub proof fn law_one_window(platform: Platform, events: Seq<Event>, phase: Phase)
    requires
        phase_after(platform, Phase::Uninitialized, events) == Some(phase),
    ensures
        forall|i: int| 0 <= i < events.len() && events[i] == Event::WindowBuilt ==> i == 1,
        phase is WindowBuilt || phase is Themed || phase is Running || phase == Phase::Terminated(
            Exit::Normal,
        ) ==> events.len() >= 2 && events[1] == Event::WindowBuilt,
{
    law_accepted_events_are_history(platform, events, phase);
}

/// One startup registers the capabilities once: registration is the first
/// event of every startup and is never reported again.
pub proof fn law_plugins_registered_once(platform: Platform, events: Seq<Event>, phase: Phase)
    requires
        phase_after(platform, Phase::Uninitialized, events) == Some(phase),
    ensures
        forall|i: int|
            0 <= i < events.len() ==> (events[i] == Event::PluginsRegistered <==> i == 0),
{
    law_accepted_events_are_history(platform, events, phase);
}

/// The native background is touched only where the platform has native
/// cosmetics. Elsewhere no startup ever sees the cosmetics applied or fail;
/// where the platform has them, the event loop starts only after they are
/// in place.
pub proof fn law_cosmetics_follow_platform(platform: Platform, events: Seq<Event>, phase: Phase)
    requires
        phase_after(platform, Phase::Uninitialized, events) == Some(phase),
    ensures
        !platform.has_native_cosmetics() ==> forall|i: int|
            0 <= i < events.len() ==> events[i] != Event::ThemeApplied && events[i]
                != Event::ThemeFailed,
        platform.has_native_cosmetics() && phase is Running ==> events.len() == 4 && events[2]
            == Event::ThemeApplied,
{
    law_accepted_events_are_history(platform, events, phase);
}

/// A window that cannot be built ends startup. The failure is the last
/// event, the process has terminated abnormally, and the event loop was
/// never started nor attempted.
pub proof fn law_window_failure_is_fatal(
    platform: Platform,
    events: Seq<Event>,
    phase: Phase,
    at: int,
)
    requires
        phase_after(platform, Phase::Uninitialized, events) == Some(phase),
        0 <= at < events.len(),
        events[at] == Event::WindowFailed,
    ensures
        phase == Phase::Terminated(Exit::Fatal(FatalError::WindowConstruction)),
        at == events.len() - 1,
        forall|i: int|
            0 <= i < events.len() ==> events[i] != Event::RunLoopStarted && events[i]
                != Event::RunLoopFailed,
        forall|event: Event| next_phase(platform, phase, event) is None,
{
    law_accepted_events_are_history(platform, events, phase);
}

} // verus!
