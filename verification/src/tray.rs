//! The tray icon and its menu.
use crate::instance;
use crate::instance::LockPhase;
use crate::places;
use crate::places::{Base, Place};
use crate::text;
use vstd::prelude::*;

verus! {

/// The menu item that opens the log's directory.
pub const OPEN_LOGS_ID: &'static str = "open_logs";

/// The menu item that quits.
pub const QUIT_ID: &'static str = "quit";

/// What the tray icon says of itself.
pub const TOOLTIP: &'static str = "Snap \u{2014} Ctrl+Shift+S to annotate";

/// What a menu item asks for.
#[derive(Debug, Clone, Copy, PartialEq, Eq)]
pub enum MenuAction {
    /// Show the directory of the log.
    OpenLogs,
    /// End the program.
    Quit,
    /// Nothing.
    Ignore,
}

/// An item of the tray's menu.
#[derive(Debug, PartialEq, Eq)]
pub struct MenuEntry {
    pub id: String,
    pub label: String,
}

/// What is to be done upon a menu item: show a place, log a line, exit with a code,
/// in this order.
#[derive(Debug, PartialEq, Eq)]
pub struct MenuEffect {
    pub show: Option<Place>,
    pub log: Option<String>,
    pub exit: Option<i32>,
}

/// The keys of the shortcut that opens the overlay.
#[derive(Debug, Clone, Copy, PartialEq, Eq)]
pub struct Hotkey {
    pub control: bool,
    pub shift: bool,
    pub key: char,
}

/// What a `MenuEffect` says.
pub ghost struct MenuEffectView {
    pub show: Option<(Base, Seq<Seq<char>>)>,
    pub log: Option<Seq<char>>,
    pub exit: Option<i32>,
}

impl View for MenuEntry {
    type V = (Seq<char>, Seq<char>);

    open spec fn view(&self) -> (Seq<char>, Seq<char>) {
        (self.id@, self.label@)
    }
}

impl View for MenuEffect {
    type V = MenuEffectView;

    open spec fn view(&self) -> MenuEffectView {
        MenuEffectView {
            show: match self.show {
                Some(place) => Some(place@),
                None => None,
            },
            log: match self.log {
                Some(line) => Some(line@),
                None => None,
            },
            exit: self.exit,
        }
    }
}

/// Whether the tray is to run, and what is to be logged of that.
#[derive(Debug, PartialEq, Eq)]
pub enum Startup<S> {
    /// Run, once this is logged.
    Run(S),
    /// Log this and end.
    Skip(S),
    /// It is not settled yet who holds the lock.
    Pending,
}

impl View for Startup<String> {
    type V = Startup<Seq<char>>;

    open spec fn view(&self) -> Startup<Seq<char>> {
        match *self {
            Startup::Run(line) => Startup::Run(line@),
            Startup::Skip(line) => Startup::Skip(line@),
            Startup::Pending => Startup::Pending,
        }
    }
}

/// An image: its pixels, row by row, and its size.
#[derive(Debug, PartialEq, Eq)]
pub struct Icon {
    pub pixels: Vec<u8>,
    pub width: u32,
    pub height: u32,
}

/// What the decoder says of a frame that it wrote to a buffer.
#[derive(Debug, Clone, Copy, PartialEq, Eq)]
pub struct FrameInfo {
    pub width: u32,
    pub height: u32,
    /// How many bytes of the buffer the frame takes up.
    pub size: usize,
}

/// What an `Icon` holds.
pub ghost struct IconView {
    pub pixels: Seq<u8>,
    pub width: u32,
    pub height: u32,
}

impl View for Icon {
    type V = IconView;

    open spec fn view(&self) -> IconView {
        IconView { pixels: self.pixels@, width: self.width, height: self.height }
    }
}

/// How large a buffer a PNG needs for a frame, where its header can be read.
pub uninterp spec fn png_buffer_size(png: Seq<u8>) -> Option<usize>;

/// What the first frame of a PNG makes of a buffer, and what is said of it,
/// where it can be decoded.
pub uninterp spec fn png_first_frame(png: Seq<u8>, buffer: Seq<u8>) -> Option<
    (Seq<u8>, FrameInfo),
>;

/// Whether the tray is to run where the attempt to acquire the lock has come to
/// `lock`.
pub open spec fn startup_of(lock: LockPhase<Seq<char>>) -> Startup<Seq<char>> {
    match lock {
        LockPhase::Held => Startup::Run("snap starting (tray mode)"@),
        LockPhase::Refused(reason) => Startup::Skip("tray start skipped: "@ + reason),
        _ => Startup::Pending,
    }
}

/// `n` bytes of zero.
pub open spec fn zeros(n: nat) -> Seq<u8> {
    Seq::new(n, |i: int| 0u8)
}

/// The icon where there is no image to show: one white pixel.
pub open spec fn blank_icon() -> IconView {
    IconView { pixels: seq![255u8, 255u8, 255u8, 200u8], width: 1, height: 1 }
}

/// The icon that a decoded frame is, or a blank one.
pub open spec fn frame_icon(frame: Option<(Seq<u8>, FrameInfo)>) -> IconView {
    match frame {
        Some((buffer, info)) => IconView {
            pixels: if info.size <= buffer.len() {
                buffer.take(info.size as int)
            } else {
                buffer
            },
            width: info.width,
            height: info.height,
        },
        None => blank_icon(),
    }
}

/// What the menu item with this name asks for.
pub open spec fn menu_action_of(id: Seq<char>) -> MenuAction {
    if id == OPEN_LOGS_ID@ {
        MenuAction::OpenLogs
    } else if id == QUIT_ID@ {
        MenuAction::Quit
    } else {
        MenuAction::Ignore
    }
}

/// What is to be done upon a menu item.
pub open spec fn menu_effect_of(action: MenuAction, home_known: bool) -> MenuEffectView {
    match action {
        MenuAction::OpenLogs => MenuEffectView {
            show: Some(places::log_place(home_known)),
            log: None,
            exit: None,
        },
        MenuAction::Quit => MenuEffectView {
            show: None,
            log: Some("quit from tray"@),
            exit: Some(0),
        },
        MenuAction::Ignore => MenuEffectView { show: None, log: None, exit: None },
    }
}

/// The items of the menu, from top to bottom: name and label.
pub open spec fn menu_of() -> Seq<(Seq<char>, Seq<char>)> {
    seq![(OPEN_LOGS_ID@, "Open Logs"@), (QUIT_ID@, "Quit Snap"@)]
}

/// What is logged once the tray, its menu and the shortcut are there.
pub open spec fn ready_log() -> Seq<Seq<char>> {
    seq!["global shortcut registered: Ctrl+Shift+S"@, "snap ready \u{2014} waiting for hotkey"@]
}

/// A request to exit is refused: it names no exit code, and so comes from the last
/// window being closed, not from the program itself.
pub open spec fn refuses_exit(code: Option<i32>) -> bool {
    code is None
}

/// `Reader::output_buffer_size` of png, on what `Decoder::read_info` makes of the
/// bytes, if it makes anything. It depends on the bytes alone.
#[verifier::external_body]
fn buffer_size(png: &[u8]) -> (r: Option<usize>)
    ensures
        r == png_buffer_size(png@),
{
    let reader = png::Decoder::new(std::io::Cursor::new(png)).read_info().ok()?;
    Some(reader.output_buffer_size())
}

/// `Reader::next_frame` of png, on what `Decoder::read_info` makes of the bytes,
/// if it makes anything. What is written to the buffer and said of it depends on
/// the bytes and the buffer alone; what the buffer holds after an error is left
/// unsaid. The buffer keeps its length.
#[verifier::external_body]
fn next_frame(png: &[u8], buffer: &mut Vec<u8>) -> (r: Option<FrameInfo>)
    ensures
        final(buffer)@.len() == old(buffer)@.len(),
        r is Some <==> png_first_frame(png@, old(buffer)@) is Some,
        r matches Some(info) ==> png_first_frame(png@, old(buffer)@) == Some(
            (final(buffer)@, info),
        ),
{
    let mut reader = png::Decoder::new(std::io::Cursor::new(png)).read_info().ok()?;
    let info = reader.next_frame(buffer).ok()?;
    Some(FrameInfo { width: info.width, height: info.height, size: info.buffer_size() })
}

/// Whether the tray is to run where the attempt to acquire the lock has come to
/// `lock`.
pub fn run_tray_mode(lock: &LockPhase<String>) -> (r: Startup<String>)
    ensures
        r@ == startup_of(lock@),
{
    match lock {
        LockPhase::Held => Startup::Run("snap starting (tray mode)".to_owned()),
        LockPhase::Refused(reason) => Startup::Skip(
            text::joined("tray start skipped: ", reason.as_str()),
        ),
        _ => Startup::Pending,
    }
}

/// What the menu item with this name asks for.
pub fn menu_action(id: &str) -> (r: MenuAction)
    ensures
        r == menu_action_of(id@),
{
    if text::same(id, OPEN_LOGS_ID) {
        MenuAction::OpenLogs
    } else if text::same(id, QUIT_ID) {
        MenuAction::Quit
    } else {
        MenuAction::Ignore
    }
}

/// What is to be done upon a menu item, where the home directory is known or not.
pub fn menu_effect(action: MenuAction, home_known: bool) -> (r: MenuEffect)
    ensures
        r@ == menu_effect_of(action, home_known),
{
    match action {
        MenuAction::OpenLogs => MenuEffect {
            show: Some(places::log_dir(home_known)),
            log: None,
            exit: None,
        },
        MenuAction::Quit => MenuEffect {
            show: None,
            log: Some("quit from tray".to_owned()),
            exit: Some(0),
        },
        MenuAction::Ignore => MenuEffect { show: None, log: None, exit: None },
    }
}

/// The items of the menu, from top to bottom.
pub fn menu_entries() -> (r: Vec<MenuEntry>)
    ensures
        r@.map_values(|entry: MenuEntry| entry@) == menu_of(),
{
    let r = vec![
        MenuEntry { id: OPEN_LOGS_ID.to_owned(), label: "Open Logs".to_owned() },
        MenuEntry { id: QUIT_ID.to_owned(), label: "Quit Snap".to_owned() },
    ];
    assert(r@.map_values(|entry: MenuEntry| entry@) =~= menu_of());
    r
}

/// The shortcut that opens the overlay: Ctrl+Shift+S.
pub fn overlay_hotkey() -> (r: Hotkey)
    ensures
        r == (Hotkey { control: true, shift: true, key: 'S' }),
{
    Hotkey { control: true, shift: true, key: 'S' }
}

/// What is logged, in order, once the tray, its menu and the shortcut are there.
pub fn ready_messages() -> (r: Vec<String>)
    ensures
        r@.map_values(|line: String| line@) == ready_log(),
{
    let r = vec![
        "global shortcut registered: Ctrl+Shift+S".to_owned(),
        "snap ready \u{2014} waiting for hotkey".to_owned(),
    ];
    assert(r@.map_values(|line: String| line@) =~= ready_log());
    r
}

/// Whether a request to exit, with this exit code if it names one, is refused. The
/// program stays while no window is open, and ends when it asks to itself.
pub fn exit_prevented(code: Option<i32>) -> (r: bool)
    ensures
        r == refuses_exit(code),
{
    code.is_none()
}

/// The icon that a decoded frame is, or a blank one.
pub fn icon_from_frame(frame: Option<(Vec<u8>, FrameInfo)>) -> (r: Icon)
    ensures
        r@ == frame_icon(
            match frame {
                Some((buffer, info)) => Some((buffer@, info)),
                None => None,
            },
        ),
        frame matches Some((buffer, info)) ==> {
            &&& r.width == info.width
            &&& r.height == info.height
            &&& info.size <= buffer@.len() ==> r.pixels@.len() == info.size
            &&& info.size >= buffer@.len() ==> r.pixels@ == buffer@
            &&& r.pixels@.is_prefix_of(buffer@)
        },
{
    match frame {
        Some((buffer, info)) => {
            let mut pixels = buffer;
            pixels.truncate(info.size);
            Icon { pixels, width: info.width, height: info.height }
        },
        None => {
            let r = Icon { pixels: vec![255u8, 255, 255, 200], width: 1, height: 1 };
            assert(r@.pixels =~= blank_icon().pixels);
            r
        },
    }
}

/// The icon that a PNG holds, or a blank one where it cannot be decoded. There is
/// none where the PNG asks for a buffer that no allocation can satisfy.
pub fn tray_icon(png: &[u8]) -> (r: Option<Icon>)
    ensures
        match png_buffer_size(png@) {
            Some(size) => if size <= isize::MAX {
                r matches Some(icon) && icon@ == frame_icon(
                    png_first_frame(png@, zeros(size as nat)),
                )
            } else {
                r is None
            },
            None => r matches Some(icon) && icon@ == blank_icon(),
        },
{
    match buffer_size(png) {
        Some(size) => {
            if size > isize::MAX as usize {
                return None;
            }
            let mut buffer = vec![0u8; size];
            assert(buffer@ =~= zeros(size as nat));
            match next_frame(png, &mut buffer) {
                Some(info) => Some(icon_from_frame(Some((buffer, info)))),
                None => Some(icon_from_frame(None)),
            }
        },
        None => Some(icon_from_frame(None)),
    }
}

/// Quitting from the menu ends the program, and nothing else in the menu does.
pub proof fn law_only_quit_ends_the_program(action: MenuAction, home_known: bool)
    ensures
        (menu_effect_of(action, home_known).exit matches Some(code) && !refuses_exit(Some(code)))
            <==> action is Quit,
{
}

/// Whoever is to run logs three lines on the way to being ready.
pub proof fn law_start_is_logged_in_three_lines(lock: LockPhase<Seq<char>>)
    ensures
        startup_of(lock) matches Startup::Run(first) ==> seq![first] + ready_log() == seq![
            "snap starting (tray mode)"@,
            "global shortcut registered: Ctrl+Shift+S"@,
            "snap ready \u{2014} waiting for hotkey"@,
        ],
{
    assert(seq!["snap starting (tray mode)"@] + ready_log() =~= seq![
        "snap starting (tray mode)"@,
        "global shortcut registered: Ctrl+Shift+S"@,
        "snap ready \u{2014} waiting for hotkey"@,
    ]);
}

/// The tray runs only in a process that created the lock file.
pub proof fn law_tray_runs_only_with_the_lock(events: Seq<instance::LockEvent<Seq<char>>>)
    requires
        startup_of(instance::acquire_run(LockPhase::FindHome, events)) is Run,
    ensures
        exists|i: int|
            #[trigger] instance::meets(events, i, LockPhase::CreateLock) && events[i]
                == instance::LockEvent::<Seq<char>>::Created,
{
    instance::law_held_only_by_creation(events);
}

/// Whatever frame was decoded, the icon has the width and the height that the decoder
/// reports, and its pixels are the bytes of the buffer from its start, as many as the
/// decoder says the frame takes up. So for a frame of four bytes to the pixel the icon
/// holds exactly four bytes to the pixel.
pub proof fn law_icon_is_the_decoded_frame(buffer: Seq<u8>, info: FrameInfo)
    ensures
        frame_icon(Some((buffer, info))).width == info.width,
        frame_icon(Some((buffer, info))).height == info.height,
        frame_icon(Some((buffer, info))).pixels.is_prefix_of(buffer),
        info.size <= buffer.len() ==> frame_icon(Some((buffer, info))).pixels.len() == info.size,
        info.size >= buffer.len() ==> frame_icon(Some((buffer, info))).pixels == buffer,
        info.size == info.width * info.height * 4 && info.size <= buffer.len() ==> frame_icon(
            Some((buffer, info)),
        ).pixels.len() == info.width * info.height * 4,
{
    if info.size == buffer.len() {
        assert(buffer.take(info.size as int) =~= buffer);
    }
}

/// Two frames make the same icon only where they agree on width, height and every
/// pixel.
pub proof fn law_icons_tell_frames_apart(
    a: Seq<u8>,
    x: FrameInfo,
    b: Seq<u8>,
    y: FrameInfo,
)
    requires
        x.size <= a.len(),
        y.size <= b.len(),
    ensures
        frame_icon(Some((a, x))) == frame_icon(Some((b, y))) ==> x == y && forall|i: int|
            0 <= i < x.size ==> #[trigger] a[i] == b[i],
{
    let (p, q) = (frame_icon(Some((a, x))), frame_icon(Some((b, y))));
    if p == q {
        law_icon_is_the_decoded_frame(a, x);
        law_icon_is_the_decoded_frame(b, y);
        assert forall|i: int| 0 <= i < x.size implies #[trigger] a[i] == b[i] by {
            assert(p.pixels[i] == a[i]);
            assert(q.pixels[i] == b[i]);
        }
    }
}

/// Without a frame the icon is a single pixel of four bytes, white and not quite
/// opaque.
pub proof fn law_blank_icon_is_one_pixel(i: int)
    ensures
        frame_icon(None).pixels.len() == frame_icon(None).width * frame_icon(None).height * 4,
        frame_icon(None).width == 1,
        frame_icon(None).height == 1,
        0 <= i < 3 ==> frame_icon(None).pixels[i] == 255,
        frame_icon(None).pixels[3] == 200,
        frame_icon(None) == blank_icon(),
{
    let (width, height) = (frame_icon(None).width, frame_icon(None).height);
    assert(width * height * 4 == 4) by (nonlinear_arith)
        requires
            width == 1,
            height == 1,
    ;
}

/// The buffer that a frame is decoded into is clear before, all of it.
pub proof fn law_buffer_is_clear(n: nat, i: int)
    requires
        0 <= i < n,
    ensures
        zeros(n).len() == n,
        zeros(n)[i] == 0,
{
}

/// The menu's items are the only ones that ask for anything: one for the log, one for
/// quitting, each known by its own name and by no other.
pub proof fn law_only_the_menus_items_are_known(id: Seq<char>)
    ensures
        menu_action_of(id) is OpenLogs <==> id == "open_logs"@,
        menu_action_of(id) is Quit <==> id == "quit"@,
        menu_action_of(id) is Ignore <==> forall|i: int|
            0 <= i < menu_of().len() ==> (#[trigger] menu_of()[i]).0 != id,
        menu_of().len() == 2,
        menu_action_of(menu_of()[0].0) is OpenLogs,
        menu_action_of(menu_of()[1].0) is Quit,
{
    reveal_strlit("open_logs");
    reveal_strlit("quit");
    assert(menu_of()[0].0 == "open_logs"@);
    assert(menu_of()[1].0 == "quit"@);
    assert("open_logs"@.len() != "quit"@.len());
}

/// Each item does its own thing only: the log's directory is shown, or quitting is
/// logged and ends the program with success, or nothing is done.
pub proof fn law_each_item_has_one_effect(action: MenuAction, home_known: bool)
    ensures
        menu_effect_of(action, home_known).show is Some <==> action is OpenLogs,
        menu_effect_of(action, home_known).show matches Some(place) ==> place == places::log_place(
            home_known,
        ),
        menu_effect_of(action, home_known).log is Some <==> action is Quit,
        menu_effect_of(action, home_known).log matches Some(line) ==> line == "quit from tray"@,
        menu_effect_of(action, home_known).exit is Some <==> action is Quit,
        menu_effect_of(action, home_known).exit matches Some(code) ==> code == 0,
{
}

/// A request to exit that names a code is granted, whatever the code is; one that
/// names none is refused.
pub proof fn law_exit_with_a_code_is_granted(code: i32)
    ensures
        !refuses_exit(Some(code)),
        refuses_exit(None),
{
}

/// The tray runs exactly where the lock is held, is skipped exactly where it was
/// refused, with the reason told in full, and waits otherwise.
pub proof fn law_lock_decides_the_start(lock: LockPhase<Seq<char>>, reason: Seq<char>)
    ensures
        startup_of(lock) is Run <==> lock is Held,
        startup_of(lock) is Skip <==> lock is Refused,
        startup_of(LockPhase::Refused(reason)) matches Startup::Skip(line) && text::leads_to(
            line,
            "tray start skipped: "@,
            reason,
        ),
{
    text::lemma_leads_to("tray start skipped: "@, reason);
}

/// An icon, a menu item, its effect and a start are seen as they are, with all that
/// they hold.
pub proof fn law_views_are_faithful(
    icon: Icon,
    entry: MenuEntry,
    effect: MenuEffect,
    start: Startup<String>,
)
    ensures
        icon@.pixels == icon.pixels@,
        icon@.width == icon.width,
        icon@.height == icon.height,
        entry@.0 == entry.id@,
        entry@.1 == entry.label@,
        effect.show is None <==> effect@.show is None,
        effect.show matches Some(place) ==> effect@.show == Some(place@),
        effect.log is None <==> effect@.log is None,
        effect.log matches Some(line) ==> effect@.log == Some(line@),
        effect@.exit == effect.exit,
        start is Pending <==> start@ is Pending,
        start matches Startup::Run(line) ==> start@ is Run && start@->Run_0 == line@,
        start matches Startup::Skip(line) ==> start@ is Skip && start@->Skip_0 == line@,
{
}

} // verus!
