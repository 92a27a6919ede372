//! Capturing the screen to a file, and reading the capture back.
use crate::codec;
use crate::text;
use vstd::prelude::*;

verus! {

/// What is to be done next to capture the screen, or how the attempt ended.
#[derive(Debug, PartialEq, Eq)]
pub enum CapturePhase<S> {
    /// Remove what an earlier capture left.
    Discard,
    /// List the screens.
    ListScreens,
    /// Capture the screen with this number in the list.
    Capture(usize),
    /// Save the capture to its file.
    Save,
    /// Find the size of the file.
    Measure,
    /// The capture is in its file.
    Done,
    /// There is no capture, for this reason.
    Failed(S),
}

/// What came of the last thing done.
#[derive(Debug, PartialEq, Eq)]
pub enum CaptureEvent<S, L> {
    /// Removal was attempted, and this system's screens can be captured or not.
    Discarded(bool),
    /// The screens, each with whether it is the primary one.
    Screens(L),
    /// The screens could not be listed.
    ListFailed(S),
    /// The screen was captured.
    Captured,
    /// The screen could not be captured.
    CaptureFailed(S),
    /// The capture was saved.
    Saved,
    /// The capture could not be saved.
    SaveFailed(S),
    /// The size of the file, where it could be found.
    Size(Option<u64>),
}

impl View for CapturePhase<String> {
    type V = CapturePhase<Seq<char>>;

    open spec fn view(&self) -> CapturePhase<Seq<char>> {
        match *self {
            CapturePhase::Discard => CapturePhase::Discard,
            CapturePhase::ListScreens => CapturePhase::ListScreens,
            CapturePhase::Capture(i) => CapturePhase::Capture(i),
            CapturePhase::Save => CapturePhase::Save,
            CapturePhase::Measure => CapturePhase::Measure,
            CapturePhase::Done => CapturePhase::Done,
            CapturePhase::Failed(reason) => CapturePhase::Failed(reason@),
        }
    }
}

impl View for CaptureEvent<String, Vec<bool>> {
    type V = CaptureEvent<Seq<char>, Seq<bool>>;

    open spec fn view(&self) -> CaptureEvent<Seq<char>, Seq<bool>> {
        match *self {
            CaptureEvent::Discarded(supported) => CaptureEvent::Discarded(supported),
            CaptureEvent::Screens(primary) => CaptureEvent::Screens(primary@),
            CaptureEvent::ListFailed(e) => CaptureEvent::ListFailed(e@),
            CaptureEvent::Captured => CaptureEvent::Captured,
            CaptureEvent::CaptureFailed(e) => CaptureEvent::CaptureFailed(e@),
            CaptureEvent::Saved => CaptureEvent::Saved,
            CaptureEvent::SaveFailed(e) => CaptureEvent::SaveFailed(e@),
            CaptureEvent::Size(size) => CaptureEvent::Size(size),
        }
    }
}

/// Screen `i` is the first of the primary ones.
pub open spec fn is_first_primary(primary: Seq<bool>, i: int) -> bool {
    &&& 0 <= i < primary.len()
    &&& primary[i]
    &&& forall|j: int| 0 <= j < i ==> !primary[j]
}

/// The screen to capture: the first primary one, or else the first one.
pub open spec fn chosen_screen(primary: Seq<bool>) -> Option<usize> {
    if primary.len() == 0 {
        None
    } else if exists|i: int| is_first_primary(primary, i) {
        Some((choose|i: int| is_first_primary(primary, i)) as usize)
    } else {
        Some(0)
    }
}

/// Screen `i` is the one to capture: a screen of the list; with a primary screen in
/// the list, a primary one with no other before it; with none, the first of the list.
pub open spec fn is_right_screen(primary: Seq<bool>, i: int) -> bool {
    &&& 0 <= i < primary.len()
    &&& primary.contains(true) ==> primary[i] && forall|j: int| 0 <= j < i ==> !primary[j]
    &&& !primary.contains(true) ==> i == 0
}

/// The phase that follows `phase` upon `event`. An event that does not answer
/// the phase changes nothing.
pub open spec fn capture_next(
    phase: CapturePhase<Seq<char>>,
    event: CaptureEvent<Seq<char>, Seq<bool>>,
) -> CapturePhase<Seq<char>> {
    match (phase, event) {
        (CapturePhase::Discard, CaptureEvent::Discarded(true)) => CapturePhase::ListScreens,
        (CapturePhase::Discard, CaptureEvent::Discarded(false)) => CapturePhase::Failed(
            "snap-pc only supports Windows"@,
        ),
        (CapturePhase::ListScreens, CaptureEvent::Screens(primary)) => match chosen_screen(
            primary,
        ) {
            Some(i) => CapturePhase::Capture(i),
            None => CapturePhase::Failed("No screens found"@),
        },
        (CapturePhase::ListScreens, CaptureEvent::ListFailed(e)) => CapturePhase::Failed(
            "Failed to list screens: "@ + e,
        ),
        (CapturePhase::Capture(_), CaptureEvent::Captured) => CapturePhase::Save,
        (CapturePhase::Capture(_), CaptureEvent::CaptureFailed(e)) => CapturePhase::Failed(
            "Screen capture failed: "@ + e,
        ),
        (CapturePhase::Save, CaptureEvent::Saved) => CapturePhase::Measure,
        (CapturePhase::Save, CaptureEvent::SaveFailed(e)) => CapturePhase::Failed(
            "Failed to save capture: "@ + e,
        ),
        (CapturePhase::Measure, CaptureEvent::Size(size)) => if size matches Some(n) && n > 0 {
            CapturePhase::Done
        } else {
            CapturePhase::Failed("Screen capture produced empty file"@)
        },
        (phase, _) => phase,
    }
}

/// What is logged of an attempt that has come to `phase`: how it ended.
pub open spec fn capture_log(phase: CapturePhase<Seq<char>>) -> Option<Seq<char>> {
    match phase {
        CapturePhase::Done => Some("screen captured via screenshots crate"@),
        CapturePhase::Failed(reason) => Some("capture failed: "@ + reason),
        _ => None,
    }
}

/// The phase that `events` lead to from `Discard`, in order.
pub open spec fn capture_run(events: Seq<CaptureEvent<Seq<char>, Seq<bool>>>) -> CapturePhase<
    Seq<char>,
>
    decreases events.len(),
{
    if events.len() == 0 {
        CapturePhase::Discard
    } else {
        capture_next(capture_run(events.drop_last()), events.last())
    }
}

/// Event `i` of `events` finds the attempt in `phase`.
pub open spec fn meets(
    events: Seq<CaptureEvent<Seq<char>, Seq<bool>>>,
    i: int,
    phase: CapturePhase<Seq<char>>,
) -> bool {
    0 <= i < events.len() && capture_run(events.take(i)) == phase
}

/// Chooses the screen to capture, given which ones are primary.
pub fn choose_screen(primary: &Vec<bool>) -> (r: Option<usize>)
    ensures
        r == chosen_screen(primary@),
{
    if primary.len() == 0 {
        return None;
    }
    let mut i: usize = 0;
    while i < primary.len()
        invariant
            i <= primary.len(),
            forall|j: int| 0 <= j < i ==> !primary@[j],
        decreases primary.len() - i,
    {
        if primary[i] {
            proof {
                assert(is_first_primary(primary@, i as int));
                lemma_first_primary_is_unique(primary@, i as int);
            }
            return Some(i);
        }
        i = i + 1;
    }
    Some(0)
}

/// Takes the attempt to capture the screen one phase further. It starts in
/// `Discard` and ends in `Done` or `Failed`.
pub fn capture_screen(phase: CapturePhase<String>, event: CaptureEvent<String, Vec<bool>>) -> (r:
    CapturePhase<String>)
    ensures
        r@ == capture_next(phase@, event@),
{
    match (phase, event) {
        (CapturePhase::Discard, CaptureEvent::Discarded(true)) => CapturePhase::ListScreens,
        (CapturePhase::Discard, CaptureEvent::Discarded(false)) => CapturePhase::Failed(
            "snap-pc only supports Windows".to_owned(),
        ),
        (CapturePhase::ListScreens, CaptureEvent::Screens(primary)) => match choose_screen(
            &primary,
        ) {
            Some(i) => CapturePhase::Capture(i),
            None => CapturePhase::Failed("No screens found".to_owned()),
        },
        (CapturePhase::ListScreens, CaptureEvent::ListFailed(e)) => CapturePhase::Failed(
            text::joined("Failed to list screens: ", e.as_str()),
        ),
        (CapturePhase::Capture(_), CaptureEvent::Captured) => CapturePhase::Save,
        (CapturePhase::Capture(_), CaptureEvent::CaptureFailed(e)) => CapturePhase::Failed(
            text::joined("Screen capture failed: ", e.as_str()),
        ),
        (CapturePhase::Save, CaptureEvent::Saved) => CapturePhase::Measure,
        (CapturePhase::Save, CaptureEvent::SaveFailed(e)) => CapturePhase::Failed(
            text::joined("Failed to save capture: ", e.as_str()),
        ),
        (CapturePhase::Measure, CaptureEvent::Size(Some(n))) => if n > 0 {
            CapturePhase::Done
        } else {
            CapturePhase::Failed("Screen capture produced empty file".to_owned())
        },
        (CapturePhase::Measure, CaptureEvent::Size(None)) => CapturePhase::Failed(
            "Screen capture produced empty file".to_owned(),
        ),
        (phase, _) => phase,
    }
}

/// What is logged of an attempt that has come to `phase`: how it ended.
pub fn capture_message(phase: &CapturePhase<String>) -> (r: Option<String>)
    ensures
        match r {
            Some(line) => capture_log(phase@) == Some(line@),
            None => capture_log(phase@) is None,
        },
{
    match phase {
        CapturePhase::Done => Some("screen captured via screenshots crate".to_owned()),
        CapturePhase::Failed(reason) => Some(text::joined("capture failed: ", reason.as_str())),
        _ => None,
    }
}

/// The capture as Base64, from what reading its file gave.
pub fn read_capture_base64(contents: Result<Vec<u8>, String>) -> (r: Result<String, String>)
    requires
        contents matches Ok(bytes) ==> codec::base64_len(bytes@.len()) <= isize::MAX,
    ensures
        match (contents, r) {
            (Ok(bytes), Ok(encoded)) => {
                &&& encoded@ == codec::base64_encoded(bytes@)
                &&& encoded@.len() == codec::base64_len(bytes@.len())
                &&& codec::decodes_as(encoded@, bytes@)
            },
            (Err(e), Err(message)) => message@ == "Failed to read capture: "@ + e@,
            _ => false,
        },
{
    match contents {
        Ok(bytes) => Ok(codec::encode(&bytes)),
        Err(e) => Err(text::joined("Failed to read capture: ", e.as_str())),
    }
}

/// Wherever there is a primary screen, it is a primary screen that is captured;
/// and wherever there is a screen, one is captured.
pub proof fn law_primary_screen_is_preferred(primary: Seq<bool>)
    requires
        primary.len() <= usize::MAX,
    ensures
        chosen_screen(primary) is Some <==> primary.len() > 0,
        chosen_screen(primary) matches Some(i) ==> i < primary.len(),
        primary.contains(true) ==> (chosen_screen(primary) matches Some(i) && primary[i as int]),
        chosen_screen(primary) matches Some(i) ==> is_right_screen(primary, i as int),
{
    if primary.contains(true) {
        lemma_first_primary_exists(primary);
    }
}

/// The step that answers a list of screens: with no screen it fails, and otherwise
/// it goes on to capture a screen of the list, the first primary one wherever there
/// is one and the first of all where there is none.
pub proof fn law_step_captures_the_primary_screen(primary: Seq<bool>)
    requires
        primary.len() <= usize::MAX,
    ensures
        primary.len() == 0 ==> capture_next(
            CapturePhase::ListScreens,
            CaptureEvent::Screens(primary),
        ) is Failed,
        primary.len() > 0 ==> (capture_next(
            CapturePhase::ListScreens,
            CaptureEvent::Screens(primary),
        ) matches CapturePhase::Capture(i) && is_right_screen(primary, i as int)),
{
    if primary.contains(true) {
        lemma_first_primary_exists(primary);
    }
}

/// Whatever happens, a screen that an attempt sets out to capture was chosen from the
/// list that it was handed while it asked for one, and is the right one of that list.
pub proof fn law_every_capture_is_of_the_primary_screen(
    events: Seq<CaptureEvent<Seq<char>, Seq<bool>>>,
    i: usize,
)
    requires
        capture_run(events) == CapturePhase::<Seq<char>>::Capture(i),
        forall|k: int|
            0 <= k < events.len() ==> (#[trigger] events[k] matches CaptureEvent::Screens(primary)
                ==> primary.len() <= usize::MAX),
    ensures
        exists|k: int|
            #[trigger] meets(events, k, CapturePhase::ListScreens) && (events[k] matches
                CaptureEvent::Screens(primary) && is_right_screen(primary, i as int)),
    decreases events.len(),
{
    let before = events.drop_last();
    assert(before =~= events.take(events.len() - 1));
    let last = events.last();
    assert(last == events[events.len() - 1]);
    if capture_run(before) == CapturePhase::<Seq<char>>::Capture(i) {
        assert forall|k: int| 0 <= k < before.len() implies (#[trigger] before[k] matches
            CaptureEvent::Screens(primary) ==> primary.len() <= usize::MAX) by {
            assert(before[k] == events[k]);
        }
        law_every_capture_is_of_the_primary_screen(before, i);
        let k = choose|k: int|
            #[trigger] meets(before, k, CapturePhase::ListScreens) && (before[k] matches
                CaptureEvent::Screens(primary) && is_right_screen(primary, i as int));
        assert(events.take(k) =~= before.take(k));
        assert(meets(events, k, CapturePhase::ListScreens));
    } else {
        assert(capture_run(before) is ListScreens);
        assert(last is Screens);
        let primary = last->Screens_0;
        law_step_captures_the_primary_screen(primary);
        assert(meets(events, events.len() - 1, CapturePhase::ListScreens));
    }
}

/// Whichever screen it is, a step done leads on to the next one, and the capture is
/// done as soon as its file holds anything, however much.
pub proof fn law_each_step_done_leads_on(i: usize, size: u64)
    ensures
        capture_next(CapturePhase::Capture(i), CaptureEvent::Captured) is Save,
        capture_next(CapturePhase::Save, CaptureEvent::Saved) is Measure,
        capture_next(CapturePhase::Measure, CaptureEvent::Size(Some(size))) is Done <==> size > 0,
        capture_next(CapturePhase::Measure, CaptureEvent::Size(Some(size))) is Failed <==> size
            == 0,
        capture_next(CapturePhase::Measure, CaptureEvent::Size(None)) is Failed,
        capture_next(CapturePhase::Discard, CaptureEvent::Discarded(true)) is ListScreens,
        capture_next(CapturePhase::Discard, CaptureEvent::Discarded(false)) is Failed,
{
}

/// A step that failed ends the attempt, and the reason says which step it was and
/// then what was reported of it, character for character; the log then tells the
/// reason in full.
pub proof fn law_failure_is_told_in_full(i: usize, e: Seq<char>)
    ensures
        capture_next(CapturePhase::ListScreens, CaptureEvent::ListFailed(e)) matches
            CapturePhase::Failed(reason) && text::leads_to(reason, "Failed to list screens: "@, e),
        capture_next(CapturePhase::Capture(i), CaptureEvent::CaptureFailed(e)) matches
            CapturePhase::Failed(reason) && text::leads_to(reason, "Screen capture failed: "@, e),
        capture_next(CapturePhase::Save, CaptureEvent::SaveFailed(e)) matches
            CapturePhase::Failed(reason) && text::leads_to(reason, "Failed to save capture: "@, e),
        capture_log(CapturePhase::Failed(e)) matches Some(line) && text::leads_to(
            line,
            "capture failed: "@,
            e,
        ),
{
    text::lemma_leads_to("Failed to list screens: "@, e);
    text::lemma_leads_to("Screen capture failed: "@, e);
    text::lemma_leads_to("Failed to save capture: "@, e);
    text::lemma_leads_to("capture failed: "@, e);
}

/// `event` reports on what `phase` asks for.
pub open spec fn answers(
    phase: CapturePhase<Seq<char>>,
    event: CaptureEvent<Seq<char>, Seq<bool>>,
) -> bool {
    ||| phase is Discard && event is Discarded
    ||| phase is ListScreens && (event is Screens || event is ListFailed)
    ||| phase is Capture && (event is Captured || event is CaptureFailed)
    ||| phase is Save && (event is Saved || event is SaveFailed)
    ||| phase is Measure && event is Size
}

/// A report on something that was not asked for changes nothing, a report on what was
/// asked for never leaves the attempt where it was, and only an end is logged.
pub proof fn law_only_answers_move_the_attempt(
    phase: CapturePhase<Seq<char>>,
    event: CaptureEvent<Seq<char>, Seq<bool>>,
)
    ensures
        capture_next(phase, event) != phase <==> answers(phase, event),
        capture_log(phase) is Some <==> phase is Done || phase is Failed,
{
}

/// A phase and an event are seen as they are, with all that they carry.
pub proof fn law_views_are_faithful(
    phase: CapturePhase<String>,
    event: CaptureEvent<String, Vec<bool>>,
)
    ensures
        phase is Discard <==> phase@ is Discard,
        phase is ListScreens <==> phase@ is ListScreens,
        phase is Save <==> phase@ is Save,
        phase is Measure <==> phase@ is Measure,
        phase is Done <==> phase@ is Done,
        forall|i: usize| phase == CapturePhase::<String>::Capture(i) <==> phase@ == CapturePhase::<
            Seq<char>,
        >::Capture(i),
        phase is Failed <==> phase@ is Failed,
        phase matches CapturePhase::Failed(reason) ==> phase@->Failed_0 == reason@,
        event is Captured <==> event@ is Captured,
        event is Saved <==> event@ is Saved,
        event matches CaptureEvent::Discarded(b) ==> event@ == CaptureEvent::<
            Seq<char>,
            Seq<bool>,
        >::Discarded(b),
        event matches CaptureEvent::Screens(list) ==> event@ is Screens && event@->Screens_0
            == list@,
        event matches CaptureEvent::ListFailed(e) ==> event@ is ListFailed
            && event@->ListFailed_0 == e@,
        event matches CaptureEvent::CaptureFailed(e) ==> event@ is CaptureFailed
            && event@->CaptureFailed_0 == e@,
        event matches CaptureEvent::SaveFailed(e) ==> event@ is SaveFailed
            && event@->SaveFailed_0 == e@,
        event matches CaptureEvent::Size(size) ==> event@ == CaptureEvent::<
            Seq<char>,
            Seq<bool>,
        >::Size(size),
{
}

/// An attempt that has ended stays as it ended.
pub proof fn law_outcome_is_final(
    phase: CapturePhase<Seq<char>>,
    event: CaptureEvent<Seq<char>, Seq<bool>>,
)
    requires
        phase is Done || phase is Failed,
    ensures
        capture_next(phase, event) == phase,
{
}

/// A capture that is done was saved to a file that is not empty.
pub proof fn law_done_means_not_empty(events: Seq<CaptureEvent<Seq<char>, Seq<bool>>>)
    requires
        capture_run(events) is Done,
    ensures
        exists|i: int|
            #[trigger] meets(events, i, CapturePhase::Measure) && (events[i] matches
                CaptureEvent::Size(Some(n)) && n > 0),
    decreases events.len(),
{
    let before = events.drop_last();
    assert(before =~= events.take(events.len() - 1));
    if capture_run(before) is Done {
        law_done_means_not_empty(before);
        let i = choose|i: int|
            #[trigger] meets(before, i, CapturePhase::Measure) && (before[i] matches
                CaptureEvent::Size(Some(n)) && n > 0);
        assert(events.take(i) =~= before.take(i));
        assert(meets(events, i, CapturePhase::Measure));
    } else {
        assert(meets(events, events.len() - 1, CapturePhase::Measure));
    }
}

proof fn lemma_first_primary_is_unique(primary: Seq<bool>, i: int)
    requires
        is_first_primary(primary, i),
    ensures
        forall|j: int| is_first_primary(primary, j) ==> i == j,
{
}

proof fn lemma_first_primary_exists(primary: Seq<bool>)
    requires
        primary.contains(true),
    ensures
        exists|i: int| is_first_primary(primary, i),
    decreases primary.len(),
{
    let before = primary.drop_last();
    if before.contains(true) {
        lemma_first_primary_exists(before);
        let i = choose|i: int| is_first_primary(before, i);
        assert forall|j: int| 0 <= j < i implies !primary[j] by {
            assert(!before[j]);
        }
        assert(is_first_primary(primary, i));
    } else {
        assert forall|j: int| 0 <= j < primary.len() - 1 implies !primary[j] by {
            assert(before[j] == primary[j]);
        }
        assert(is_first_primary(primary, primary.len() - 1));
    }
}

} // verus!
