use snap::clock::Moment;
use snap::instance::{
    is_process_running, lock_message, lock_text, try_acquire_single_instance, LockEvent, LockPhase,
};
use snap::log::{log_event, log_line, needs_rotation, LogEntry};
use snap::overlay::{
    mark_overlay_closed, opening_start, opening_step, overlay_step, OpeningEvent, OpeningPhase,
    OverlayEvent, OverlayStep,
};
use snap::places::{
    capture_temp_path, inbox_dir, lock_path, log_backup_path, log_dir, log_path, Base, Place,
};
use snap::text::{contains, decimal_text, parse_u32, replace_char, same, trim, white};
use snap::tray::{
    exit_prevented, icon_from_frame, menu_action, menu_effect, menu_entries, overlay_hotkey,
    ready_messages, run_tray_mode, tray_icon, FrameInfo, Hotkey, Icon, MenuAction, MenuEffect,
    MenuEntry, Startup,
};

fn acquire(events: Vec<LockEvent<String>>) -> LockPhase<String> {
    let mut phase = LockPhase::FindHome;
    for event in events {
        phase = try_acquire_single_instance(phase, event);
    }
    phase
}

fn found(contents: Option<&str>) -> LockPhase<String> {
    acquire(vec![
        LockEvent::Home(true),
        LockEvent::DirCreated,
        LockEvent::Exists,
        LockEvent::Contents(contents.map(|s| s.to_string())),
    ])
}

fn refused(reason: &str) -> LockPhase<String> {
    LockPhase::Refused(reason.to_string())
}

#[test]
fn lock_is_acquired_by_creating_it() {
    let events = vec![LockEvent::Home(true), LockEvent::DirCreated, LockEvent::Created];
    assert_eq!(acquire(events), LockPhase::Held);
}

#[test]
fn lock_names_its_writer() {
    assert_eq!(lock_text(4242), "4242\n");
    assert_eq!(lock_text(0), "0\n");
    for pid in [0, 1, 9, 10, 4242, 99_999, u32::MAX] {
        assert_eq!(lock_text(pid), format!("{}\n", pid));
        assert_eq!(found(Some(&lock_text(pid))), LockPhase::Probe(pid));
    }
}

#[test]
fn live_owner_keeps_others_out() {
    let phase = found(Some("17\n"));
    assert_eq!(
        try_acquire_single_instance(phase, LockEvent::Running(true)),
        refused("another instance is already running")
    );
}

#[test]
fn dead_owner_is_replaced() {
    let phase = try_acquire_single_instance(found(Some("17\n")), LockEvent::Running(false));
    assert_eq!(phase, LockPhase::RemoveLock);
    let phase = try_acquire_single_instance(phase, LockEvent::Removed);
    assert_eq!(phase, LockPhase::CreateLock);
    assert_eq!(try_acquire_single_instance(phase, LockEvent::Created), LockPhase::Held);
}

#[test]
fn unreadable_lock_is_stale() {
    for contents in [
        None,
        Some(""),
        Some("pid"),
        Some("+"),
        Some("-1"),
        Some("4294967296"),
        Some("1 2"),
        Some("++1"),
    ] {
        assert_eq!(found(contents), LockPhase::RemoveLock);
    }
    assert_eq!(found(Some("\u{2003}+0042\r\n")), LockPhase::Probe(42));
}

#[test]
fn lock_is_refused_for_a_reason() {
    assert_eq!(acquire(vec![LockEvent::Home(false)]), refused("Could not determine home directory"));
    assert_eq!(
        acquire(vec![LockEvent::Home(true), LockEvent::DirFailed("x".to_string())]),
        refused("Failed to create ~/.snap: x")
    );
    assert_eq!(
        acquire(vec![
            LockEvent::Home(true),
            LockEvent::DirCreated,
            LockEvent::CreateFailed("x".to_string()),
        ]),
        refused("failed to create lock file: x")
    );
    let events = vec![LockEvent::Home(false), LockEvent::Home(true), LockEvent::Created];
    assert_eq!(acquire(events), refused("Could not determine home directory"));
}

#[test]
fn removal_of_a_stale_lock_is_logged() {
    assert_eq!(
        lock_message(&LockPhase::RemoveLock),
        Some("removing stale lock file".to_string())
    );
    assert_eq!(lock_message(&found(Some("7"))), None);
    assert_eq!(
        lock_message(&found(Some("no number"))),
        Some("removing stale lock file".to_string())
    );
    assert_eq!(lock_message(&LockPhase::Held), None);
}

#[test]
fn process_runs_while_still_active() {
    assert!(is_process_running(Some(259)));
    assert!(!is_process_running(Some(0)));
    assert!(!is_process_running(None));
}

#[test]
fn text_is_read_as_std_reads_it() {
    let samples = [
        "", " ", "7", " 7 ", "+7", "-7", "007", "4294967295", "4294967296", "42949672950", "7a", "a7",
        "\u{85}7\u{3000}", "\u{A0}+12\u{1680}", "\u{200B}7", "\u{180E}7", "\t\n7\u{B}\u{C}", "٣",
    ];
    for s in samples {
        let trimmed: String = trim(s).into_iter().collect();
        assert_eq!(trimmed, s.trim());
        assert_eq!(parse_u32(&trim(s)), s.trim().parse::<u32>().ok());
    }
    for code in 0..=0x10FFFF {
        if let Some(c) = char::from_u32(code) {
            assert_eq!(white(c), c.is_whitespace());
        }
    }
    assert_eq!(decimal_text(1_234_567_890), "1234567890");
    assert!(contains("chromewidget", "chrome"));
    assert!(contains("xchrom chrome", "chrome"));
    assert!(!contains("chrom", "chrome"));
    assert!(contains("", ""));
    assert_eq!(replace_char("a.b.é", '.', '-'), "a-b-é");
    assert!(same("quit", "quit") && !same("quit", "Quit"));
}

fn shortcut(active: bool, pressed: bool) -> OverlayStep<String> {
    overlay_step(active, OverlayEvent::Shortcut(pressed))
}

#[test]
fn shortcut_opens_one_overlay() {
    let quiet = |active: bool| OverlayStep { active, open: false, log: None };
    assert_eq!(
        shortcut(false, true),
        OverlayStep { active: true, open: true, log: Some("hotkey triggered".to_string()) }
    );
    assert_eq!(shortcut(false, false), quiet(false));
    assert_eq!(shortcut(true, true), quiet(true));
    assert_eq!(shortcut(true, false), quiet(true));
}

#[test]
fn overlay_that_is_gone_can_be_opened_again() {
    let gone = |log: &str| OverlayStep { active: false, open: false, log: Some(log.to_string()) };
    assert_eq!(mark_overlay_closed(), gone("overlay closed"));
    assert_eq!(overlay_step(true, OverlayEvent::Closed), gone("overlay closed"));
    assert_eq!(
        overlay_step(true, OverlayEvent::OpenFailed("x".to_string())),
        gone("failed to create overlay: x")
    );
    assert_eq!(
        overlay_step(true, OverlayEvent::DispatchFailed("x".to_string())),
        gone("failed to schedule overlay creation on main thread: x")
    );
    assert_eq!(
        overlay_step(true, OverlayEvent::Opened),
        OverlayStep { active: true, open: false, log: Some("overlay window created".to_string()) }
    );
    assert!(shortcut(mark_overlay_closed().active, true).open);
}

#[test]
fn no_two_overlays_are_open_at_once() {
    let mut active = false;
    let mut open = 0;
    for round in 0..40 {
        let event = match round % 7 {
            0 | 1 | 2 | 4 => OverlayEvent::Shortcut(round % 2 == 0),
            3 => OverlayEvent::Opened,
            5 => OverlayEvent::Closed,
            _ => OverlayEvent::OpenFailed("x".to_string()),
        };
        let gone = event == OverlayEvent::Closed
            || event == OverlayEvent::OpenFailed("x".to_string());
        let step = overlay_step(active, event);
        if gone {
            open = 0;
        }
        if step.open {
            open += 1;
        }
        assert!(open <= 1);
        assert_eq!(step.active, open == 1);
        active = step.active;
    }
}

#[test]
fn overlay_opens_step_by_step() {
    assert_eq!(opening_start(), OpeningPhase::Wait(50));
    let mut phase = opening_start();
    for (event, next) in [
        (OpeningEvent::Created, OpeningPhase::Wait(50)),
        (OpeningEvent::Waited, OpeningPhase::StoreContext),
        (OpeningEvent::Scheduled, OpeningPhase::StoreContext),
        (OpeningEvent::ContextStored, OpeningPhase::Schedule),
        (OpeningEvent::Scheduled, OpeningPhase::DestroyStale),
        (OpeningEvent::StaleDestroyed, OpeningPhase::CreateWindow),
        (OpeningEvent::Created, OpeningPhase::Ended(OverlayEvent::Opened)),
        (OpeningEvent::Waited, OpeningPhase::Ended(OverlayEvent::Opened)),
    ] {
        phase = opening_step(phase, event);
        assert_eq!(phase, next);
    }
}

#[test]
fn opening_that_fails_frees_the_shortcut() {
    let x = || "x".to_string();
    let ends = vec![
        (
            opening_step(OpeningPhase::Schedule, OpeningEvent::ScheduleFailed(x())),
            OverlayEvent::DispatchFailed(x()),
        ),
        (
            opening_step(OpeningPhase::CreateWindow, OpeningEvent::CreateFailed(x())),
            OverlayEvent::OpenFailed(x()),
        ),
    ];
    for (phase, end) in ends {
        assert_eq!(phase, OpeningPhase::Ended(end));
        if let OpeningPhase::Ended(event) = phase {
            assert!(!overlay_step(true, event).active);
        }
    }
}

#[test]
fn log_stays_near_its_limit() {
    let (mut log, mut backup, mut all) = (String::new(), String::new(), String::new());
    let msg = "é".repeat(30_000);
    for i in 0..120 {
        let size = if i == 0 { None } else { Some(log.len() as u64) };
        let entry = log_event(size, Moment { secs: i, nanos: 0 }, &msg);
        assert_eq!(entry.line.len(), msg.len() + 23);
        if entry.rotate {
            backup = std::mem::take(&mut log);
        }
        log.push_str(&entry.line);
        all.push_str(&entry.line);
        assert!(log.len() <= 1_000_000 + msg.len() + 23);
        assert!(log.ends_with(&entry.line));
        assert!(all.ends_with(&format!("{}{}", backup, log)));
    }
    assert!(!backup.is_empty() && backup.len() > 1_000_000);
}

#[test]
fn log_starts_over_above_a_megabyte() {
    assert!(!needs_rotation(None));
    assert!(!needs_rotation(Some(1_000_000)));
    assert!(needs_rotation(Some(1_000_001)));
}

#[test]
fn log_lines_are_stamped() {
    assert_eq!(log_line("T", "m"), "[T] m\n");
    assert_eq!(
        log_event(Some(5), Moment { secs: 1_431_648_061, nanos: 999_999_999 }, "snap — ready"),
        LogEntry { rotate: false, line: "[2015-05-15 00:01:01] snap — ready\n".to_string() }
    );
    assert!(log_event(Some(2_000_000), Moment { secs: 0, nanos: 0 }, "").rotate);
}

#[test]
fn calendar_ends_where_it_is_said_to() {
    let made = |secs: i64, nanos: u32| chrono::DateTime::from_timestamp(secs, nanos).is_some();
    assert!(made(-8_334_601_228_800, 0) && !made(-8_334_601_228_801, 0));
    assert!(made(8_210_266_876_799, 0) && !made(8_210_266_876_800, 0));
    assert!(made(59, 1_999_999_999) && !made(59, 2_000_000_000));
    assert!(made(58, 999_999_999) && !made(58, 1_000_000_000));
    assert!(made(-1, 1_999_999_999) && !made(-2, 1_000_000_000));
    assert_eq!(
        log_event(None, Moment { secs: 59, nanos: 1_500_000_000 }, "x").line,
        "[1970-01-01 00:00:60] x\n"
    );
    assert_eq!(
        log_event(None, Moment { secs: 8_210_266_876_799, nanos: 0 }, "x").line,
        "[+262142-12-31 23:59:59] x\n"
    );
    assert_eq!(
        log_event(None, Moment { secs: -8_334_601_228_800, nanos: 0 }, "x").line,
        "[-262143-01-01 00:00:00] x\n"
    );
}

fn place(base: Base, names: &[&str]) -> Place {
    Place { base, names: names.iter().map(|s| s.to_string()).collect() }
}

#[test]
fn everything_has_its_place() {
    assert_eq!(capture_temp_path(), place(Base::Temp, &["snap-capture.png"]));
    assert_eq!(inbox_dir(true), Ok(place(Base::Home, &[".snap", "inbox"])));
    assert_eq!(inbox_dir(false), Err("Could not determine home directory".to_string()));
    assert_eq!(log_dir(true), place(Base::Home, &[".snap"]));
    assert_eq!(log_dir(false), place(Base::Temp, &[]));
    assert_eq!(log_path(true), place(Base::Home, &[".snap", "snap.log"]));
    assert_eq!(log_path(false), place(Base::Temp, &["snap.log"]));
    assert_eq!(log_backup_path(true), place(Base::Home, &[".snap", "snap.log.old"]));
    assert_eq!(lock_path(), place(Base::Home, &[".snap", "snap-tray.lock"]));
}

#[test]
fn menu_items_are_told_apart() {
    assert_eq!(menu_action("open_logs"), MenuAction::OpenLogs);
    assert_eq!(menu_action("quit"), MenuAction::Quit);
    assert_eq!(menu_action("Quit"), MenuAction::Ignore);
    assert_eq!(menu_action(""), MenuAction::Ignore);
}

#[test]
fn menu_items_have_effects() {
    assert_eq!(
        menu_effect(MenuAction::OpenLogs, true),
        MenuEffect { show: Some(place(Base::Home, &[".snap"])), log: None, exit: None }
    );
    assert_eq!(
        menu_effect(MenuAction::OpenLogs, false).show,
        Some(place(Base::Temp, &[]))
    );
    assert_eq!(
        menu_effect(MenuAction::Quit, true),
        MenuEffect { show: None, log: Some("quit from tray".to_string()), exit: Some(0) }
    );
    assert_eq!(
        menu_effect(MenuAction::Ignore, true),
        MenuEffect { show: None, log: None, exit: None }
    );
}

#[test]
fn only_quit_ends_the_program() {
    assert!(exit_prevented(None));
    assert!(!exit_prevented(Some(0)) && !exit_prevented(Some(-1)));
    assert!(!exit_prevented(menu_effect(MenuAction::Quit, true).exit));
}

#[test]
fn tray_announces_itself() {
    let entry = |id: &str, label: &str| MenuEntry { id: id.to_string(), label: label.to_string() };
    assert_eq!(
        menu_entries(),
        vec![entry("open_logs", "Open Logs"), entry("quit", "Quit Snap")]
    );
    assert_eq!(overlay_hotkey(), Hotkey { control: true, shift: true, key: 'S' });
    assert_eq!(
        ready_messages(),
        vec![
            "global shortcut registered: Ctrl+Shift+S".to_string(),
            "snap ready — waiting for hotkey".to_string(),
        ]
    );
}

#[test]
fn tray_runs_with_the_lock() {
    assert_eq!(
        run_tray_mode(&LockPhase::Held),
        Startup::Run("snap starting (tray mode)".to_string())
    );
    assert_eq!(
        run_tray_mode(&refused("why")),
        Startup::Skip("tray start skipped: why".to_string())
    );
    assert_eq!(run_tray_mode(&LockPhase::CreateLock), Startup::Pending);
}

fn blank() -> Icon {
    Icon { pixels: vec![255, 255, 255, 200], width: 1, height: 1 }
}

fn png_of(pixels: &[u8], width: u32, height: u32) -> Vec<u8> {
    let mut out = Vec::new();
    {
        let mut encoder = png::Encoder::new(&mut out, width, height);
        encoder.set_color(png::ColorType::Rgba);
        encoder.set_depth(png::BitDepth::Eight);
        encoder.write_header().unwrap().write_image_data(pixels).unwrap();
    }
    out
}

#[test]
fn icon_is_decoded() {
    let pixels: Vec<u8> = (0..24).collect();
    assert_eq!(
        tray_icon(&png_of(&pixels, 3, 2)),
        Some(Icon { pixels, width: 3, height: 2 })
    );
}

#[test]
fn icon_is_blank_where_it_cannot_be_decoded() {
    assert_eq!(tray_icon(&[]), Some(blank()));
    assert_eq!(tray_icon(b"no image"), Some(blank()));
    let pixels: Vec<u8> = (0..=255).cycle().take(4 * 64 * 64).collect();
    let mut cut = png_of(&pixels, 64, 64);
    cut.truncate(60);
    assert_eq!(tray_icon(&cut), Some(blank()));
}

#[test]
fn icon_takes_up_no_more_than_its_frame() {
    let info = FrameInfo { width: 1, height: 1, size: 4 };
    assert_eq!(
        icon_from_frame(Some((vec![1, 2, 3, 4, 5], info))),
        Icon { pixels: vec![1, 2, 3, 4], width: 1, height: 1 }
    );
    assert_eq!(icon_from_frame(None), blank());
}
