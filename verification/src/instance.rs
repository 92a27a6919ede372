//! One instance at a time: who may hold the lock file, and for how long.
use crate::text;
use vstd::prelude::*;

verus! {

/// The exit code that Windows reports for a process that has not exited.
pub const STILL_ACTIVE: u32 = 259;

/// What is to be done next to acquire the lock, or how the attempt ended.
#[derive(Debug, PartialEq, Eq)]
pub enum LockPhase<S> {
    /// Find the home directory.
    FindHome,
    /// Create the directory that holds the lock file.
    CreateDir,
    /// Create the lock file, which must not exist yet, and write `lock_text` into it.
    CreateLock,
    /// Read the lock file that another process left.
    ReadLock,
    /// Find out whether the process that the lock file names still runs.
    Probe(u32),
    /// Remove the lock file: nobody holds it any more.
    RemoveLock,
    /// The lock is held.
    Held,
    /// The lock is not to be had, for this reason.
    Refused(S),
}

/// What came of the last thing done.
#[derive(Debug, PartialEq, Eq)]
pub enum LockEvent<S> {
    /// Whether there is a home directory.
    Home(bool),
    /// The directory is there.
    DirCreated,
    /// The directory could not be created.
    DirFailed(S),
    /// The lock file was created.
    Created,
    /// The lock file was there already.
    Exists,
    /// The lock file could not be created for another reason.
    CreateFailed(S),
    /// What the lock file holds, where it could be read as text.
    Contents(Option<S>),
    /// Whether the process in question runs.
    Running(bool),
    /// Removal was attempted.
    Removed,
}

impl View for LockPhase<String> {
    type V = LockPhase<Seq<char>>;

    open spec fn view(&self) -> LockPhase<Seq<char>> {
        match *self {
            LockPhase::FindHome => LockPhase::FindHome,
            LockPhase::CreateDir => LockPhase::CreateDir,
            LockPhase::CreateLock => LockPhase::CreateLock,
            LockPhase::ReadLock => LockPhase::ReadLock,
            LockPhase::Probe(pid) => LockPhase::Probe(pid),
            LockPhase::RemoveLock => LockPhase::RemoveLock,
            LockPhase::Held => LockPhase::Held,
            LockPhase::Refused(reason) => LockPhase::Refused(reason@),
        }
    }
}

impl View for LockEvent<String> {
    type V = LockEvent<Seq<char>>;

    open spec fn view(&self) -> LockEvent<Seq<char>> {
        match *self {
            LockEvent::Home(found) => LockEvent::Home(found),
            LockEvent::DirCreated => LockEvent::DirCreated,
            LockEvent::DirFailed(e) => LockEvent::DirFailed(e@),
            LockEvent::Created => LockEvent::Created,
            LockEvent::Exists => LockEvent::Exists,
            LockEvent::CreateFailed(e) => LockEvent::CreateFailed(e@),
            LockEvent::Contents(None) => LockEvent::Contents(None),
            LockEvent::Contents(Some(t)) => LockEvent::Contents(Some(t@)),
            LockEvent::Running(alive) => LockEvent::Running(alive),
            LockEvent::Removed => LockEvent::Removed,
        }
    }
}

/// What the lock file of process `pid` holds: its number on a line.
pub open spec fn lock_line(pid: u32) -> Seq<char> {
    text::decimal(pid as nat).push('\n')
}

/// The process that a lock file with these contents names, if it names one.
pub open spec fn lock_owner(contents: Option<Seq<char>>) -> Option<u32> {
    match contents {
        Some(t) => text::parsed_u32(text::trimmed(t)),
        None => None,
    }
}

/// The phase that follows `phase` upon `event`. An event that does not answer
/// the phase changes nothing.
pub open spec fn acquire_next(
    phase: LockPhase<Seq<char>>,
    event: LockEvent<Seq<char>>,
) -> LockPhase<Seq<char>> {
    match (phase, event) {
        (LockPhase::FindHome, LockEvent::Home(true)) => LockPhase::CreateDir,
        (LockPhase::FindHome, LockEvent::Home(false)) => LockPhase::Refused(
            "Could not determine home directory"@,
        ),
        (LockPhase::CreateDir, LockEvent::DirCreated) => LockPhase::CreateLock,
        (LockPhase::CreateDir, LockEvent::DirFailed(e)) => LockPhase::Refused(
            "Failed to create ~/.snap: "@ + e,
        ),
        (LockPhase::CreateLock, LockEvent::Created) => LockPhase::Held,
        (LockPhase::CreateLock, LockEvent::Exists) => LockPhase::ReadLock,
        (LockPhase::CreateLock, LockEvent::CreateFailed(e)) => LockPhase::Refused(
            "failed to create lock file: "@ + e,
        ),
        (LockPhase::ReadLock, LockEvent::Contents(contents)) => match lock_owner(contents) {
            Some(pid) => LockPhase::Probe(pid),
            None => LockPhase::RemoveLock,
        },
        (LockPhase::Probe(_), LockEvent::Running(true)) => LockPhase::Refused(
            "another instance is already running"@,
        ),
        (LockPhase::Probe(_), LockEvent::Running(false)) => LockPhase::RemoveLock,
        (LockPhase::RemoveLock, LockEvent::Removed) => LockPhase::CreateLock,
        (phase, _) => phase,
    }
}

/// The phase that `events` lead to from `phase`, in order.
pub open spec fn acquire_run(
    phase: LockPhase<Seq<char>>,
    events: Seq<LockEvent<Seq<char>>>,
) -> LockPhase<Seq<char>>
    decreases events.len(),
{
    if events.len() == 0 {
        phase
    } else {
        acquire_next(acquire_run(phase, events.drop_last()), events.last())
    }
}

/// What is logged before what `phase` asks for is done.
pub open spec fn lock_log(phase: LockPhase<Seq<char>>) -> Option<Seq<char>> {
    if phase is RemoveLock {
        Some("removing stale lock file"@)
    } else {
        None
    }
}

/// What process `pid` writes into its lock file.
pub fn lock_text(pid: u32) -> (r: String)
    ensures
        r@ == lock_line(pid),
{
    let mut r = text::decimal_text(pid);
    r.push('\n');
    r
}

/// What is logged before what `phase` asks for is done.
pub fn lock_message(phase: &LockPhase<String>) -> (r: Option<String>)
    ensures
        match r {
            Some(line) => lock_log(phase@) == Some(line@),
            None => lock_log(phase@) is None,
        },
{
    match phase {
        LockPhase::RemoveLock => Some("removing stale lock file".to_owned()),
        _ => None,
    }
}

/// Whether a process runs, by the exit code that it reports. There is none
/// where the process could not be opened or asked.
pub fn is_process_running(exit_code: Option<u32>) -> (r: bool)
    ensures
        r == (exit_code == Some(STILL_ACTIVE)),
        r <==> exit_code == Some(259u32),
{
    match exit_code {
        Some(code) => code == STILL_ACTIVE,
        None => false,
    }
}

/// Takes the attempt to acquire the lock one phase further. It starts in
/// `FindHome` and ends in `Held` or `Refused`. A lock file that cannot be read,
/// names no process, or names one that no longer runs is stale: it is removed
/// and the creation tried again.
pub fn try_acquire_single_instance(phase: LockPhase<String>, event: LockEvent<String>) -> (r:
    LockPhase<String>)
    ensures
        r@ == acquire_next(phase@, event@),
{
    match (phase, event) {
        (LockPhase::FindHome, LockEvent::Home(true)) => LockPhase::CreateDir,
        (LockPhase::FindHome, LockEvent::Home(false)) => LockPhase::Refused(
            "Could not determine home directory".to_owned(),
        ),
        (LockPhase::CreateDir, LockEvent::DirCreated) => LockPhase::CreateLock,
        (LockPhase::CreateDir, LockEvent::DirFailed(e)) => LockPhase::Refused(
            text::joined("Failed to create ~/.snap: ", e.as_str()),
        ),
        (LockPhase::CreateLock, LockEvent::Created) => LockPhase::Held,
        (LockPhase::CreateLock, LockEvent::Exists) => LockPhase::ReadLock,
        (LockPhase::CreateLock, LockEvent::CreateFailed(e)) => LockPhase::Refused(
            text::joined("failed to create lock file: ", e.as_str()),
        ),
        (LockPhase::ReadLock, LockEvent::Contents(Some(t))) => match text::parse_u32(&text::trim(t.as_str())) {
            Some(pid) => LockPhase::Probe(pid),
            None => LockPhase::RemoveLock,
        },
        (LockPhase::ReadLock, LockEvent::Contents(None)) => LockPhase::RemoveLock,
        (LockPhase::Probe(_), LockEvent::Running(true)) => LockPhase::Refused(
            "another instance is already running".to_owned(),
        ),
        (LockPhase::Probe(_), LockEvent::Running(false)) => LockPhase::RemoveLock,
        (LockPhase::RemoveLock, LockEvent::Removed) => LockPhase::CreateLock,
        (phase, _) => phase,
    }
}

/// What a process writes into its lock file, any process reads back as its number.
pub proof fn law_lock_names_its_writer(pid: u32)
    ensures
        lock_owner(Some(lock_line(pid))) == Some(pid),
{
    text::lemma_decimal_line_round_trip(pid);
}

/// While the process that wrote the lock file runs, no other gets the lock.
pub proof fn law_live_owner_refuses(pid: u32)
    ensures
        acquire_run(
            LockPhase::CreateLock,
            seq![
                LockEvent::Exists,
                LockEvent::Contents(Some(lock_line(pid))),
                LockEvent::Running(true),
            ],
        ) == LockPhase::<Seq<char>>::Refused("another instance is already running"@),
{
    law_lock_names_its_writer(pid);
    let events = seq![
        LockEvent::Exists,
        LockEvent::Contents(Some(lock_line(pid))),
        LockEvent::Running(true),
    ];
    lemma_run_of_three(LockPhase::CreateLock, events[0], events[1], events[2]);
}

/// The lock file of a process that no longer runs is removed, and the lock
/// tried for again.
pub proof fn law_dead_owner_is_replaced(pid: u32)
    ensures
        acquire_run(
            LockPhase::CreateLock,
            seq![
                LockEvent::Exists,
                LockEvent::Contents(Some(lock_line(pid))),
                LockEvent::Running(false),
            ],
        ) == LockPhase::<Seq<char>>::RemoveLock,
        acquire_next(LockPhase::RemoveLock, LockEvent::Removed) == LockPhase::<
            Seq<char>,
        >::CreateLock,
{
    law_lock_names_its_writer(pid);
    let events = seq![
        LockEvent::Exists,
        LockEvent::Contents(Some(lock_line(pid))),
        LockEvent::Running(false),
    ];
    lemma_run_of_three(LockPhase::CreateLock, events[0], events[1], events[2]);
}

/// A lock file that cannot be read, or that names no process, is removed.
pub proof fn law_unreadable_lock_is_stale(contents: Option<Seq<char>>)
    requires
        lock_owner(contents) is None,
    ensures
        acquire_next(LockPhase::ReadLock, LockEvent::Contents(contents)) == LockPhase::<
            Seq<char>,
        >::RemoveLock,
{
}

/// An attempt that has ended stays as it ended.
pub proof fn law_outcome_is_final(
    phase: LockPhase<Seq<char>>,
    events: Seq<LockEvent<Seq<char>>>,
)
    requires
        phase is Held || phase is Refused,
    ensures
        acquire_run(phase, events) == phase,
    decreases events.len(),
{
    if events.len() > 0 {
        law_outcome_is_final(phase, events.drop_last());
    }
}

/// Event `i` of `events` finds the attempt, started in `FindHome`, in `phase`.
pub open spec fn meets(
    events: Seq<LockEvent<Seq<char>>>,
    i: int,
    phase: LockPhase<Seq<char>>,
) -> bool {
    0 <= i < events.len() && acquire_run(LockPhase::FindHome, events.take(i)) == phase
}

/// Whoever holds the lock has created the lock file: the only way to `Held` is
/// a creation that succeeded.
pub proof fn law_held_only_by_creation(events: Seq<LockEvent<Seq<char>>>)
    requires
        acquire_run(LockPhase::FindHome, events) is Held,
    ensures
        exists|i: int|
            #[trigger] meets(events, i, LockPhase::CreateLock) && events[i] == LockEvent::<
                Seq<char>,
            >::Created,
    decreases events.len(),
{
    let before = events.drop_last();
    assert(before =~= events.take(events.len() - 1));
    if acquire_run(LockPhase::FindHome, before) is Held {
        law_held_only_by_creation(before);
        let i = choose|i: int|
            #[trigger] meets(before, i, LockPhase::CreateLock) && before[i] == LockEvent::<
                Seq<char>,
            >::Created;
        assert(events.take(i) =~= before.take(i));
        assert(meets(events, i, LockPhase::CreateLock));
    } else {
        assert(meets(events, events.len() - 1, LockPhase::CreateLock));
    }
}

/// The attempt asks after process `pid` only where the lock file named it.
pub proof fn law_probe_only_of_named_process(events: Seq<LockEvent<Seq<char>>>, pid: u32)
    requires
        acquire_run(LockPhase::FindHome, events) == LockPhase::<Seq<char>>::Probe(pid),
    ensures
        exists|i: int|
            #[trigger] meets(events, i, LockPhase::ReadLock) && events[i] is Contents
                && lock_owner(events[i]->Contents_0) == Some(pid),
    decreases events.len(),
{
    let before = events.drop_last();
    assert(before =~= events.take(events.len() - 1));
    if acquire_run(LockPhase::FindHome, before) == LockPhase::<Seq<char>>::Probe(pid) {
        law_probe_only_of_named_process(before, pid);
        let i = choose|i: int|
            #[trigger] meets(before, i, LockPhase::ReadLock) && before[i] is Contents
                && lock_owner(before[i]->Contents_0) == Some(pid);
        assert(events.take(i) =~= before.take(i));
        assert(meets(events, i, LockPhase::ReadLock));
    } else {
        assert(meets(events, events.len() - 1, LockPhase::ReadLock));
    }
}

/// A refusal that blames another instance comes only where the process that
/// the lock file named was found running.
pub proof fn law_blame_only_a_running_process(events: Seq<LockEvent<Seq<char>>>)
    requires
        acquire_run(LockPhase::FindHome, events) == LockPhase::Refused(
            "another instance is already running"@,
        ),
    ensures
        exists|i: int, pid: u32|
            #[trigger] meets(events, i, LockPhase::Probe(pid)) && events[i] == LockEvent::<
                Seq<char>,
            >::Running(true),
    decreases events.len(),
{
    reveal_strlit("another instance is already running");
    reveal_strlit("Could not determine home directory");
    reveal_strlit("Failed to create ~/.snap: ");
    reveal_strlit("failed to create lock file: ");
    let blame = LockPhase::Refused("another instance is already running"@);
    let before = events.drop_last();
    assert(before =~= events.take(events.len() - 1));
    let last = acquire_run(LockPhase::FindHome, before);
    if last == blame {
        law_blame_only_a_running_process(before);
        let (i, pid) = choose|i: int, pid: u32|
            #[trigger] meets(before, i, LockPhase::Probe(pid)) && before[i] == LockEvent::<
                Seq<char>,
            >::Running(true);
        assert(events.take(i) =~= before.take(i));
        assert(meets(events, i, LockPhase::Probe(pid)));
    } else {
        assert(blame->Refused_0[0] == 'a');
        assert(last is Probe);
        assert(meets(events, events.len() - 1, LockPhase::Probe(last->Probe_0)));
    }
}

/// The number of a process in its lock file is its decimal digits and a line feed, so
/// no two processes write the same.
pub proof fn law_lock_line_is_the_number(pid: u32, other: u32)
    ensures
        lock_line(pid).len() > 1,
        lock_line(pid).last() == '\n',
        text::all_digits(lock_line(pid).drop_last()),
        text::digits_value(lock_line(pid).drop_last()) == pid,
        lock_line(pid)[0] == '0' ==> pid == 0 && lock_line(pid).len() == 2,
        lock_line(pid) == lock_line(other) ==> pid == other,
{
    text::law_decimal_stands_for_its_number(pid as nat);
    text::law_decimal_stands_for_its_number(other as nat);
    assert(lock_line(pid).drop_last() =~= text::decimal(pid as nat));
    assert(lock_line(other).drop_last() =~= text::decimal(other as nat));
    assert(lock_line(pid)[0] == text::decimal(pid as nat)[0]);
}

/// A lock file names a process wherever it holds its number, with white space on
/// either side or none, and with a plus sign and zeros before the digits or none; and
/// that process is then asked after.
pub proof fn law_number_in_the_lock_is_found(
    before: Seq<char>,
    signed: bool,
    k: nat,
    pid: u32,
    behind: Seq<char>,
)
    requires
        text::all_white(before),
        text::all_white(behind),
    ensures
        ({
            let held = before + (text::number_lead(signed, k) + text::decimal(pid as nat)) + behind;
            &&& lock_owner(Some(held)) == Some(pid)
            &&& acquire_next(LockPhase::ReadLock, LockEvent::Contents(Some(held)))
                == LockPhase::<Seq<char>>::Probe(pid)
        }),
{
    let digits = text::decimal(pid as nat);
    let core = text::number_lead(signed, k) + digits;
    text::law_decimal_stands_for_its_number(pid as nat);
    text::law_decimal_is_read(pid, signed, k);
    assert(core.last() == digits.last());
    assert(text::is_digit(core.last()));
    assert(text::is_digit(core[0]) || core[0] == '+') by {
        if !signed && k == 0 {
            assert(core[0] == digits[0]);
        }
    }
    text::law_trimmed_of_padded(before, core, behind);
}

/// A lock file names a process only where it holds nothing but its number, white
/// space, and a plus sign or zeros before the digits; one that cannot be read names
/// none.
pub proof fn law_only_a_number_in_the_lock_is_found(contents: Option<Seq<char>>, pid: u32)
    requires
        lock_owner(contents) == Some(pid),
    ensures
        contents matches Some(held) && exists|
            before: Seq<char>,
            signed: bool,
            k: nat,
            behind: Seq<char>,
        |
            text::all_white(before) && text::all_white(behind) && held == #[trigger] (before + (
            text::number_lead(signed, k) + text::decimal(pid as nat)) + behind),
{
    let held = contents->Some_0;
    let core = text::trimmed(held);
    text::law_trimmed_loses_only_white_space(held);
    let (before, behind) = choose|before: Seq<char>, behind: Seq<char>|
        text::all_white(before) && text::all_white(behind) && held == #[trigger] (before + core
            + behind);
    text::law_only_decimal_is_read(core, pid);
    let (signed, k) = choose|signed: bool, k: nat|
        core == #[trigger] text::number_lead(signed, k) + text::decimal(pid as nat);
    assert(held == before + (text::number_lead(signed, k) + text::decimal(pid as nat)) + behind);
}

/// Whatever the process is, whether it runs decides; the lock is held exactly by
/// creating it; and each step done leads on to the next.
pub proof fn law_each_step_done_leads_on(pid: u32)
    ensures
        acquire_next(LockPhase::FindHome, LockEvent::Home(true)) is CreateDir,
        acquire_next(LockPhase::CreateDir, LockEvent::DirCreated) is CreateLock,
        acquire_next(LockPhase::CreateLock, LockEvent::Created) is Held,
        acquire_next(LockPhase::CreateLock, LockEvent::Exists) is ReadLock,
        acquire_next(LockPhase::Probe(pid), LockEvent::Running(true)) is Refused,
        acquire_next(LockPhase::Probe(pid), LockEvent::Running(false)) is RemoveLock,
        acquire_next(LockPhase::RemoveLock, LockEvent::Removed) is CreateLock,
{
}

/// A step that failed ends the attempt, and the reason says which step it was and then
/// what was reported of it, character for character.
pub proof fn law_failure_is_told_in_full(pid: u32, e: Seq<char>)
    ensures
        acquire_next(LockPhase::FindHome, LockEvent::Home(false)) == LockPhase::Refused(
            "Could not determine home directory"@,
        ),
        acquire_next(LockPhase::CreateDir, LockEvent::DirFailed(e)) matches LockPhase::Refused(
            reason,
        ) && text::leads_to(reason, "Failed to create ~/.snap: "@, e),
        acquire_next(LockPhase::CreateLock, LockEvent::CreateFailed(e)) matches LockPhase::Refused(
            reason,
        ) && text::leads_to(reason, "failed to create lock file: "@, e),
        acquire_next(LockPhase::Probe(pid), LockEvent::Running(true)) == LockPhase::Refused(
            "another instance is already running"@,
        ),
{
    text::lemma_leads_to("Failed to create ~/.snap: "@, e);
    text::lemma_leads_to("failed to create lock file: "@, e);
}

/// `event` reports on what `phase` asks for.
pub open spec fn answers(phase: LockPhase<Seq<char>>, event: LockEvent<Seq<char>>) -> bool {
    ||| phase is FindHome && event is Home
    ||| phase is CreateDir && (event is DirCreated || event is DirFailed)
    ||| phase is CreateLock && (event is Created || event is Exists || event is CreateFailed)
    ||| phase is ReadLock && event is Contents
    ||| phase is Probe && event is Running
    ||| phase is RemoveLock && event is Removed
}

/// A report on something that was not asked for changes nothing, a report on what was
/// asked for never leaves the attempt where it was, and only a removal is logged.
pub proof fn law_only_answers_move_the_attempt(
    phase: LockPhase<Seq<char>>,
    event: LockEvent<Seq<char>>,
)
    ensures
        acquire_next(phase, event) != phase <==> answers(phase, event),
        lock_log(phase) is Some <==> phase is RemoveLock,
        lock_log(phase) matches Some(line) ==> line == "removing stale lock file"@,
{
}

/// A phase and an event are seen as they are, with all that they carry.
pub proof fn law_views_are_faithful(phase: LockPhase<String>, event: LockEvent<String>)
    ensures
        phase is FindHome <==> phase@ is FindHome,
        phase is CreateDir <==> phase@ is CreateDir,
        phase is CreateLock <==> phase@ is CreateLock,
        phase is ReadLock <==> phase@ is ReadLock,
        phase is RemoveLock <==> phase@ is RemoveLock,
        phase is Held <==> phase@ is Held,
        phase matches LockPhase::Probe(pid) ==> phase@ == LockPhase::<Seq<char>>::Probe(pid),
        phase matches LockPhase::Refused(reason) ==> phase@ is Refused && phase@->Refused_0
            == reason@,
        event is DirCreated <==> event@ is DirCreated,
        event is Created <==> event@ is Created,
        event is Exists <==> event@ is Exists,
        event is Removed <==> event@ is Removed,
        event matches LockEvent::Home(found) ==> event@ == LockEvent::<Seq<char>>::Home(found),
        event matches LockEvent::Running(alive) ==> event@ == LockEvent::<Seq<char>>::Running(
            alive,
        ),
        event matches LockEvent::DirFailed(e) ==> event@ is DirFailed && event@->DirFailed_0 == e@,
        event matches LockEvent::CreateFailed(e) ==> event@ is CreateFailed
            && event@->CreateFailed_0 == e@,
        event matches LockEvent::Contents(None) ==> event@ == LockEvent::<Seq<char>>::Contents(
            None,
        ),
        event matches LockEvent::Contents(Some(held)) ==> event@ == LockEvent::Contents(
            Some(held@),
        ),
{
}

proof fn lemma_run_of_three(
    phase: LockPhase<Seq<char>>,
    a: LockEvent<Seq<char>>,
    b: LockEvent<Seq<char>>,
    c: LockEvent<Seq<char>>,
)
    ensures
        acquire_run(phase, seq![a, b, c]) == acquire_next(
            acquire_next(acquire_next(phase, a), b),
            c,
        ),
{
    reveal_with_fuel(acquire_run, 4);
    assert(seq![a, b, c].drop_last() =~= seq![a, b]);
    assert(seq![a, b].drop_last() =~= seq![a]);
    assert(seq![a].drop_last() =~= Seq::<LockEvent<Seq<char>>>::empty());
}

} // verus!
