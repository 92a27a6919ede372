//! The overlay that captures are annotated in: at most one at a time.
use crate::text;
use vstd::prelude::*;

verus! {

/// What happens to the overlay.
#[derive(Debug, PartialEq, Eq)]
pub enum OverlayEvent<S> {
    /// The shortcut was pressed, or released.
    Shortcut(bool),
    /// The overlay's window is there.
    Opened,
    /// The overlay's window could not be created.
    OpenFailed(S),
    /// The creation of the overlay's window could not be scheduled.
    DispatchFailed(S),
    /// The overlay was closed.
    Closed,
}

/// What follows from an event.
#[derive(Debug, PartialEq, Eq)]
pub struct OverlayStep<S> {
    /// The overlay is open or about to be.
    pub active: bool,
    /// The overlay is to be opened now.
    pub open: bool,
    /// What is to be logged.
    pub log: Option<S>,
}

/// How long in milliseconds the overlay waits before it opens, so that it does not
/// capture itself.
pub const OPEN_DELAY_MS: u64 = 50;

/// What is to be done next to open the overlay, or how that ended.
#[derive(Debug, PartialEq, Eq)]
pub enum OpeningPhase<S> {
    /// Let this many milliseconds pass.
    Wait(u64),
    /// Store the context of the window in the foreground.
    StoreContext,
    /// Have the rest done where windows are created.
    Schedule,
    /// Destroy the window of an earlier overlay, if there is one.
    DestroyStale,
    /// Create the overlay's window.
    CreateWindow,
    /// It ended with this.
    Ended(OverlayEvent<S>),
}

/// What came of the last thing done to open the overlay.
#[derive(Debug, PartialEq, Eq)]
pub enum OpeningEvent<S> {
    /// The time has passed.
    Waited,
    /// The context is stored.
    ContextStored,
    /// The rest is being done where windows are created.
    Scheduled,
    /// The rest could not be scheduled.
    ScheduleFailed(S),
    /// No window of an earlier overlay is left.
    StaleDestroyed,
    /// The window is there.
    Created,
    /// The window could not be created.
    CreateFailed(S),
}

impl View for OpeningPhase<String> {
    type V = OpeningPhase<Seq<char>>;

    open spec fn view(&self) -> OpeningPhase<Seq<char>> {
        match *self {
            OpeningPhase::Wait(ms) => OpeningPhase::Wait(ms),
            OpeningPhase::StoreContext => OpeningPhase::StoreContext,
            OpeningPhase::Schedule => OpeningPhase::Schedule,
            OpeningPhase::DestroyStale => OpeningPhase::DestroyStale,
            OpeningPhase::CreateWindow => OpeningPhase::CreateWindow,
            OpeningPhase::Ended(event) => OpeningPhase::Ended(event@),
        }
    }
}

impl View for OpeningEvent<String> {
    type V = OpeningEvent<Seq<char>>;

    open spec fn view(&self) -> OpeningEvent<Seq<char>> {
        match *self {
            OpeningEvent::Waited => OpeningEvent::Waited,
            OpeningEvent::ContextStored => OpeningEvent::ContextStored,
            OpeningEvent::Scheduled => OpeningEvent::Scheduled,
            OpeningEvent::ScheduleFailed(e) => OpeningEvent::ScheduleFailed(e@),
            OpeningEvent::StaleDestroyed => OpeningEvent::StaleDestroyed,
            OpeningEvent::Created => OpeningEvent::Created,
            OpeningEvent::CreateFailed(e) => OpeningEvent::CreateFailed(e@),
        }
    }
}

impl View for OverlayEvent<String> {
    type V = OverlayEvent<Seq<char>>;

    open spec fn view(&self) -> OverlayEvent<Seq<char>> {
        match *self {
            OverlayEvent::Shortcut(pressed) => OverlayEvent::Shortcut(pressed),
            OverlayEvent::Opened => OverlayEvent::Opened,
            OverlayEvent::OpenFailed(e) => OverlayEvent::OpenFailed(e@),
            OverlayEvent::DispatchFailed(e) => OverlayEvent::DispatchFailed(e@),
            OverlayEvent::Closed => OverlayEvent::Closed,
        }
    }
}

impl View for OverlayStep<String> {
    type V = OverlayStep<Seq<char>>;

    open spec fn view(&self) -> OverlayStep<Seq<char>> {
        OverlayStep {
            active: self.active,
            open: self.open,
            log: match self.log {
                Some(line) => Some(line@),
                None => None,
            },
        }
    }
}

/// What follows from `event` where the overlay is active or not.
pub open spec fn overlay_next(active: bool, event: OverlayEvent<Seq<char>>) -> OverlayStep<
    Seq<char>,
> {
    match event {
        OverlayEvent::Shortcut(pressed) => if pressed && !active {
            OverlayStep { active: true, open: true, log: Some("hotkey triggered"@) }
        } else {
            OverlayStep { active, open: false, log: None }
        },
        OverlayEvent::Opened => OverlayStep {
            active,
            open: false,
            log: Some("overlay window created"@),
        },
        OverlayEvent::OpenFailed(e) => OverlayStep {
            active: false,
            open: false,
            log: Some("failed to create overlay: "@ + e),
        },
        OverlayEvent::DispatchFailed(e) => OverlayStep {
            active: false,
            open: false,
            log: Some("failed to schedule overlay creation on main thread: "@ + e),
        },
        OverlayEvent::Closed => OverlayStep {
            active: false,
            open: false,
            log: Some("overlay closed"@),
        },
    }
}

/// Whether the overlay is active after `events`, where it was not before.
pub open spec fn active_after(events: Seq<OverlayEvent<Seq<char>>>) -> bool
    decreases events.len(),
{
    events.len() > 0 && overlay_next(active_after(events.drop_last()), events.last()).active
}

/// Event `i` of `events` opens the overlay.
pub open spec fn opens_at(events: Seq<OverlayEvent<Seq<char>>>, i: int) -> bool {
    0 <= i < events.len() && overlay_next(active_after(events.take(i)), events[i]).open
}

/// The overlay is gone after such an event.
pub open spec fn releases(event: OverlayEvent<Seq<char>>) -> bool {
    event is OpenFailed || event is DispatchFailed || event is Closed
}

/// The phase that follows `phase` upon `event`. An event that does not answer
/// the phase changes nothing.
pub open spec fn opening_next(
    phase: OpeningPhase<Seq<char>>,
    event: OpeningEvent<Seq<char>>,
) -> OpeningPhase<Seq<char>> {
    match (phase, event) {
        (OpeningPhase::Wait(_), OpeningEvent::Waited) => OpeningPhase::StoreContext,
        (OpeningPhase::StoreContext, OpeningEvent::ContextStored) => OpeningPhase::Schedule,
        (OpeningPhase::Schedule, OpeningEvent::Scheduled) => OpeningPhase::DestroyStale,
        (OpeningPhase::Schedule, OpeningEvent::ScheduleFailed(e)) => OpeningPhase::Ended(
            OverlayEvent::DispatchFailed(e),
        ),
        (OpeningPhase::DestroyStale, OpeningEvent::StaleDestroyed) => OpeningPhase::CreateWindow,
        (OpeningPhase::CreateWindow, OpeningEvent::Created) => OpeningPhase::Ended(
            OverlayEvent::Opened,
        ),
        (OpeningPhase::CreateWindow, OpeningEvent::CreateFailed(e)) => OpeningPhase::Ended(
            OverlayEvent::OpenFailed(e),
        ),
        (phase, _) => phase,
    }
}

/// The phase that `events` lead to from the start, in order.
pub open spec fn opening_run(events: Seq<OpeningEvent<Seq<char>>>) -> OpeningPhase<Seq<char>>
    decreases events.len(),
{
    if events.len() == 0 {
        OpeningPhase::Wait(OPEN_DELAY_MS)
    } else {
        opening_next(opening_run(events.drop_last()), events.last())
    }
}

/// Event `i` of `events` finds the opening in `phase`.
pub open spec fn meets(
    events: Seq<OpeningEvent<Seq<char>>>,
    i: int,
    phase: OpeningPhase<Seq<char>>,
) -> bool {
    0 <= i < events.len() && opening_run(events.take(i)) == phase
}

/// How the opening of the overlay starts.
pub fn opening_start() -> (r: OpeningPhase<String>)
    ensures
        r@ == opening_run(Seq::empty()),
{
    OpeningPhase::Wait(OPEN_DELAY_MS)
}

/// Takes the opening of the overlay one phase further. It ends with an event that
/// `overlay_step` is to be told of.
pub fn opening_step(phase: OpeningPhase<String>, event: OpeningEvent<String>) -> (r:
    OpeningPhase<String>)
    ensures
        r@ == opening_next(phase@, event@),
{
    match (phase, event) {
        (OpeningPhase::Wait(_), OpeningEvent::Waited) => OpeningPhase::StoreContext,
        (OpeningPhase::StoreContext, OpeningEvent::ContextStored) => OpeningPhase::Schedule,
        (OpeningPhase::Schedule, OpeningEvent::Scheduled) => OpeningPhase::DestroyStale,
        (OpeningPhase::Schedule, OpeningEvent::ScheduleFailed(e)) => OpeningPhase::Ended(
            OverlayEvent::DispatchFailed(e),
        ),
        (OpeningPhase::DestroyStale, OpeningEvent::StaleDestroyed) => OpeningPhase::CreateWindow,
        (OpeningPhase::CreateWindow, OpeningEvent::Created) => OpeningPhase::Ended(
            OverlayEvent::Opened,
        ),
        (OpeningPhase::CreateWindow, OpeningEvent::CreateFailed(e)) => OpeningPhase::Ended(
            OverlayEvent::OpenFailed(e),
        ),
        (phase, _) => phase,
    }
}

/// What follows from `event` where the overlay is active or not.
pub fn overlay_step(active: bool, event: OverlayEvent<String>) -> (r: OverlayStep<String>)
    ensures
        r@ == overlay_next(active, event@),
{
    match event {
        OverlayEvent::Shortcut(pressed) => if pressed && !active {
            OverlayStep { active: true, open: true, log: Some("hotkey triggered".to_owned()) }
        } else {
            OverlayStep { active, open: false, log: None }
        },
        OverlayEvent::Opened => OverlayStep {
            active,
            open: false,
            log: Some("overlay window created".to_owned()),
        },
        OverlayEvent::OpenFailed(e) => OverlayStep {
            active: false,
            open: false,
            log: Some(text::joined("failed to create overlay: ", e.as_str())),
        },
        OverlayEvent::DispatchFailed(e) => OverlayStep {
            active: false,
            open: false,
            log: Some(
                text::joined("failed to schedule overlay creation on main thread: ", e.as_str()),
            ),
        },
        OverlayEvent::Closed => mark_overlay_closed(),
    }
}

/// What follows from the overlay being closed, whether it was active or not.
pub fn mark_overlay_closed() -> (r: OverlayStep<String>)
    ensures
        forall|active: bool| r@ == #[trigger] overlay_next(active, OverlayEvent::Closed),
{
    OverlayStep { active: false, open: false, log: Some("overlay closed".to_owned()) }
}

/// Between two events that open the overlay stands one after which it is gone:
/// no two overlays are open at once.
pub proof fn law_one_overlay_at_a_time(
    events: Seq<OverlayEvent<Seq<char>>>,
    i: int,
    j: int,
)
    requires
        i < j,
        opens_at(events, i),
        opens_at(events, j),
    ensures
        exists|k: int| i < k < j && #[trigger] releases(events[k]),
{
    if forall|k: int| i < k < j ==> !#[trigger] releases(events[k]) {
        lemma_active_until_release(events, i, j);
    }
}

proof fn lemma_active_until_release(events: Seq<OverlayEvent<Seq<char>>>, i: int, j: int)
    requires
        opens_at(events, i),
        i < j <= events.len(),
        forall|k: int| i < k < j ==> !#[trigger] releases(events[k]),
    ensures
        active_after(events.take(j)),
    decreases j,
{
    assert(events.take(j).drop_last() =~= events.take(j - 1));
    if j > i + 1 {
        lemma_active_until_release(events, i, j - 1);
        assert(!releases(events[j - 1]));
    }
}

/// While the overlay is active the shortcut changes nothing and opens nothing.
pub proof fn law_shortcut_ignored_while_active(pressed: bool)
    ensures
        overlay_next(true, OverlayEvent::Shortcut(pressed)) == (OverlayStep::<Seq<char>> {
            active: true,
            open: false,
            log: None,
        }),
{
}

/// Once the overlay is gone, the next press of the shortcut opens it again.
pub proof fn law_release_rearms(active: bool, event: OverlayEvent<Seq<char>>)
    requires
        releases(event),
    ensures
        overlay_next(overlay_next(active, event).active, OverlayEvent::Shortcut(true)).open,
{
}

/// However the opening ends, either the overlay is open or the shortcut works
/// again.
pub proof fn law_opening_never_jams_the_shortcut(events: Seq<OpeningEvent<Seq<char>>>)
    ensures
        opening_run(events) matches OpeningPhase::Ended(end) ==> end is Opened || releases(end),
    decreases events.len(),
{
    if events.len() > 0 {
        law_opening_never_jams_the_shortcut(events.drop_last());
    }
}

/// The context of the foreground window is stored before the overlay's window is
/// created, while the user's window is still in the foreground.
pub proof fn law_context_is_stored_before_the_window(events: Seq<OpeningEvent<Seq<char>>>)
    requires
        ({
            let phase = opening_run(events);
            phase is Schedule || phase is DestroyStale || phase is CreateWindow || phase is Ended
        }),
    ensures
        exists|i: int|
            #[trigger] meets(events, i, OpeningPhase::StoreContext) && events[i] is ContextStored,
    decreases events.len(),
{
    let before = events.drop_last();
    assert(before =~= events.take(events.len() - 1));
    if opening_run(before) is StoreContext {
        assert(meets(events, events.len() - 1, OpeningPhase::StoreContext));
    } else {
        law_context_is_stored_before_the_window(before);
        let i = choose|i: int|
            #[trigger] meets(before, i, OpeningPhase::StoreContext) && before[i] is ContextStored;
        assert(events.take(i) =~= before.take(i));
        assert(meets(events, i, OpeningPhase::StoreContext));
    }
}

/// The window of an earlier overlay is gone before a new one is created.
pub proof fn law_stale_window_goes_first(events: Seq<OpeningEvent<Seq<char>>>)
    requires
        ({
            let phase = opening_run(events);
            phase is CreateWindow || phase == OpeningPhase::<Seq<char>>::Ended(OverlayEvent::Opened)
        }),
    ensures
        exists|i: int|
            #[trigger] meets(events, i, OpeningPhase::DestroyStale) && events[i] is StaleDestroyed,
    decreases events.len(),
{
    let before = events.drop_last();
    assert(before =~= events.take(events.len() - 1));
    if opening_run(before) is DestroyStale {
        assert(meets(events, events.len() - 1, OpeningPhase::DestroyStale));
    } else {
        law_stale_window_goes_first(before);
        let i = choose|i: int|
            #[trigger] meets(before, i, OpeningPhase::DestroyStale) && before[i] is StaleDestroyed;
        assert(events.take(i) =~= before.take(i));
        assert(meets(events, i, OpeningPhase::DestroyStale));
    }
}

/// The overlay is opened exactly by a press of the shortcut while it is not active,
/// which makes it active; whatever else happens opens nothing and makes nothing active
/// that was not.
pub proof fn law_only_a_press_opens(active: bool, event: OverlayEvent<Seq<char>>)
    ensures
        overlay_next(active, event).open <==> !active && event == OverlayEvent::<
            Seq<char>,
        >::Shortcut(true),
        overlay_next(active, event).open ==> overlay_next(active, event).active,
        overlay_next(active, event).active && !active ==> overlay_next(active, event).open,
        active && !overlay_next(active, event).active <==> active && releases(event),
        releases(event) <==> event is OpenFailed || event is DispatchFailed || event is Closed,
{
}

/// Everything but a shortcut that opens nothing is logged, and a failure with what was
/// reported of it, character for character, whatever the state before.
pub proof fn law_failure_is_told_in_full(
    active: bool,
    event: OverlayEvent<Seq<char>>,
    e: Seq<char>,
)
    ensures
        overlay_next(active, event).log is None <==> event is Shortcut && !overlay_next(
            active,
            event,
        ).open,
        overlay_next(active, OverlayEvent::OpenFailed(e)).log matches Some(line) && text::leads_to(
            line,
            "failed to create overlay: "@,
            e,
        ),
        overlay_next(active, OverlayEvent::DispatchFailed(e)).log matches Some(line)
            && text::leads_to(line, "failed to schedule overlay creation on main thread: "@, e),
        overlay_next(active, OverlayEvent::Opened).log == Some("overlay window created"@),
        overlay_next(active, OverlayEvent::Closed).log == Some("overlay closed"@),
        overlay_next(active, event).open ==> overlay_next(active, event).log == Some(
            "hotkey triggered"@,
        ),
{
    text::lemma_leads_to("failed to create overlay: "@, e);
    text::lemma_leads_to("failed to schedule overlay creation on main thread: "@, e);
}

/// However long it waits, each step of the opening that is done leads on to the next,
/// the opening ends where the window is there, and a failure is passed on with what
/// was reported of it.
pub proof fn law_each_step_done_leads_on(ms: u64, e: Seq<char>)
    ensures
        opening_run(Seq::empty()) == OpeningPhase::<Seq<char>>::Wait(50),
        opening_next(OpeningPhase::Wait(ms), OpeningEvent::Waited) is StoreContext,
        opening_next(OpeningPhase::StoreContext, OpeningEvent::ContextStored) is Schedule,
        opening_next(OpeningPhase::Schedule, OpeningEvent::Scheduled) is DestroyStale,
        opening_next(OpeningPhase::DestroyStale, OpeningEvent::StaleDestroyed) is CreateWindow,
        opening_next(OpeningPhase::CreateWindow, OpeningEvent::Created) matches
            OpeningPhase::Ended(end) && end is Opened,
        opening_next(OpeningPhase::CreateWindow, OpeningEvent::CreateFailed(e)) matches
            OpeningPhase::Ended(end) && end is OpenFailed && end->OpenFailed_0 == e,
        opening_next(OpeningPhase::Schedule, OpeningEvent::ScheduleFailed(e)) matches
            OpeningPhase::Ended(end) && end is DispatchFailed && end->DispatchFailed_0 == e,
{
}

/// `event` reports on what `phase` asks for.
pub open spec fn answers(phase: OpeningPhase<Seq<char>>, event: OpeningEvent<Seq<char>>) -> bool {
    ||| phase is Wait && event is Waited
    ||| phase is StoreContext && event is ContextStored
    ||| phase is Schedule && (event is Scheduled || event is ScheduleFailed)
    ||| phase is DestroyStale && event is StaleDestroyed
    ||| phase is CreateWindow && (event is Created || event is CreateFailed)
}

/// A report on something that was not asked for changes nothing, and a report on what
/// was asked for never leaves the opening where it was; so an end is final.
pub proof fn law_only_answers_move_the_opening(
    phase: OpeningPhase<Seq<char>>,
    event: OpeningEvent<Seq<char>>,
)
    ensures
        opening_next(phase, event) != phase <==> answers(phase, event),
        phase is Ended ==> opening_next(phase, event) == phase,
{
}

/// Phases, events and steps are seen as they are, with all that they carry.
pub proof fn law_views_are_faithful(
    phase: OpeningPhase<String>,
    event: OpeningEvent<String>,
    happening: OverlayEvent<String>,
    step: OverlayStep<String>,
)
    ensures
        phase matches OpeningPhase::Wait(ms) ==> phase@ == OpeningPhase::<Seq<char>>::Wait(ms),
        phase is StoreContext <==> phase@ is StoreContext,
        phase is Schedule <==> phase@ is Schedule,
        phase is DestroyStale <==> phase@ is DestroyStale,
        phase is CreateWindow <==> phase@ is CreateWindow,
        phase matches OpeningPhase::Ended(end) ==> phase@ is Ended && phase@->Ended_0 == end@,
        event is Waited <==> event@ is Waited,
        event is ContextStored <==> event@ is ContextStored,
        event is Scheduled <==> event@ is Scheduled,
        event is StaleDestroyed <==> event@ is StaleDestroyed,
        event is Created <==> event@ is Created,
        event matches OpeningEvent::ScheduleFailed(e) ==> event@ is ScheduleFailed
            && event@->ScheduleFailed_0 == e@,
        event matches OpeningEvent::CreateFailed(e) ==> event@ is CreateFailed
            && event@->CreateFailed_0 == e@,
        happening is Opened <==> happening@ is Opened,
        happening is Closed <==> happening@ is Closed,
        happening matches OverlayEvent::Shortcut(pressed) ==> happening@ == OverlayEvent::<
            Seq<char>,
        >::Shortcut(pressed),
        happening matches OverlayEvent::OpenFailed(e) ==> happening@ is OpenFailed
            && happening@->OpenFailed_0 == e@,
        happening matches OverlayEvent::DispatchFailed(e) ==> happening@ is DispatchFailed
            && happening@->DispatchFailed_0 == e@,
        step@.active == step.active,
        step@.open == step.open,
        step.log is None <==> step@.log is None,
        step.log matches Some(line) ==> step@.log == Some(line@),
{
}

} // verus!
