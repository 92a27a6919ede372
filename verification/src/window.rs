//! What is known of the window that the user was looking at.
use crate::text;
use crate::utf16;
use vstd::prelude::*;

verus! {

/// How many UTF-16 units the buffer for a window's class name has.
pub const CLASS_UNITS: usize = 256;

/// What the system reported of the foreground window.
#[derive(Debug)]
pub struct RawWindow {
    /// How many UTF-16 units the title has; none where it is not positive.
    pub title_len: i32,
    /// The buffer that the title was written to.
    pub title: Vec<u16>,
    /// How many UTF-16 units the class name has; none where it is not positive.
    pub class_len: i32,
    /// The buffer that the class name was written to.
    pub class: Vec<u16>,
    /// The process that owns the window; none where it is zero.
    pub pid: u32,
}

/// What is told of a window.
#[derive(Debug, PartialEq, Eq)]
pub struct WindowContext {
    pub window_title: Option<String>,
    pub url: Option<String>,
    pub window_class: Option<String>,
    pub pid: Option<u32>,
}

/// A context that was taken before the overlay covered the screen, until it is
/// asked for.
#[derive(Debug)]
pub struct ContextSlot {
    pub stored: Option<WindowContext>,
}

/// What a `WindowContext` says.
pub ghost struct WindowFacts {
    pub window_title: Option<Seq<char>>,
    pub url: Option<Seq<char>>,
    pub window_class: Option<Seq<char>>,
    pub pid: Option<u32>,
}

/// Optional text as a sequence of characters.
pub open spec fn text_view(s: Option<String>) -> Option<Seq<char>> {
    match s {
        Some(t) => Some(t@),
        None => None,
    }
}

impl View for WindowContext {
    type V = WindowFacts;

    open spec fn view(&self) -> WindowFacts {
        WindowFacts {
            window_title: text_view(self.window_title),
            url: text_view(self.url),
            window_class: text_view(self.window_class),
            pid: self.pid,
        }
    }
}

impl View for ContextSlot {
    type V = Option<WindowFacts>;

    open spec fn view(&self) -> Option<WindowFacts> {
        match self.stored {
            Some(context) => Some(context@),
            None => None,
        }
    }
}

impl RawWindow {
    /// Each buffer holds what its length says.
    pub open spec fn wf(self) -> bool {
        &&& self.title_len <= self.title@.len()
        &&& self.class_len <= self.class@.len()
    }

    /// The title, where there is one.
    pub open spec fn title_text(self) -> Option<Seq<char>> {
        reported_text(self.title@, self.title_len as int)
    }

    /// The class name, where there is one.
    pub open spec fn class_text(self) -> Option<Seq<char>> {
        reported_text(self.class@, self.class_len as int)
    }
}

/// The text in the first `len` units of a buffer, where there are any.
pub open spec fn reported_text(units: Seq<u16>, len: int) -> Option<Seq<char>> {
    if len > 0 {
        Some(utf16::utf16_text(units.take(len)))
    } else {
        None
    }
}

/// `s` in lower case, by Unicode's rules.
pub uninterp spec fn lowercased(s: Seq<char>) -> Seq<char>;

/// Every character of `s` is ASCII.
pub open spec fn is_ascii_text(s: Seq<char>) -> bool {
    forall|i: int| 0 <= i < s.len() ==> #[trigger] s[i] <= '\u{7F}'
}

/// `s` with the letters `A` to `Z` in lower case.
pub open spec fn ascii_lowercased(s: Seq<char>) -> Seq<char> {
    s.map_values(|c: char| if 'A' <= c <= 'Z' { (c as int + 32) as char } else { c })
}

/// A class name in lower case belongs to a browser.
pub open spec fn names_browser(lower: Seq<char>) -> bool {
    ||| text::occurs_in("chrome"@, lower)
    ||| text::occurs_in("msedge"@, lower)
    ||| text::occurs_in("firefox"@, lower)
    ||| text::occurs_in("brave"@, lower)
    ||| text::occurs_in("opera"@, lower)
}

/// A window of this class, if it has one, belongs to a browser.
pub open spec fn is_browser_class(class: Option<Seq<char>>) -> bool {
    class matches Some(name) && names_browser(lowercased(name))
}

/// What is told of a window, or of the lack of one. A browser shows in its title
/// where it is, so the title stands in for the address there.
pub open spec fn window_facts(window: Option<RawWindow>) -> WindowFacts {
    match window {
        None => WindowFacts { window_title: None, url: None, window_class: None, pid: None },
        Some(w) => WindowFacts {
            window_title: w.title_text(),
            url: if is_browser_class(w.class_text()) {
                w.title_text()
            } else {
                None
            },
            window_class: w.class_text(),
            pid: if w.pid > 0 {
                Some(w.pid)
            } else {
                None
            },
        },
    }
}

/// For a class name in ASCII, it is the name with `A` to `Z` in lower case that
/// settles whether the title stands in for the address.
pub open spec fn tells_by_ascii(facts: WindowFacts) -> bool {
    facts.window_class matches Some(class) ==> is_ascii_text(class) ==> facts.url == (
    if names_browser(ascii_lowercased(class)) {
        facts.window_title
    } else {
        None
    })
}

/// What a slot holds after the context of `window` was stored in it, whatever it held
/// before.
pub open spec fn slot_stored(window: Option<RawWindow>) -> Option<WindowFacts> {
    Some(window_facts(window))
}

/// What comes out of a slot, and what it holds after that.
pub open spec fn slot_taken(slot: Option<WindowFacts>) -> (
    Option<WindowFacts>,
    Option<WindowFacts>,
) {
    (slot, None)
}

/// `str::to_lowercase` of std: lower case by Unicode's rules, which change
/// nothing in ASCII but the letters `A` to `Z`.
#[verifier::external_body]
fn lowercase(s: &str) -> (r: String)
    ensures
        r@ == lowercased(s@),
        is_ascii_text(s@) ==> r@ == ascii_lowercased(s@),
{
    s.to_lowercase()
}

/// Whether a class name, in lower case already, belongs to a browser.
pub fn is_browser_name(lower: &str) -> (r: bool)
    ensures
        r == names_browser(lower@),
{
    text::contains(lower, "chrome") || text::contains(lower, "msedge") || text::contains(
        lower,
        "firefox",
    ) || text::contains(lower, "brave") || text::contains(lower, "opera")
}

/// Whether a window of this class belongs to a browser.
pub fn is_browser(class: &str) -> (r: bool)
    ensures
        r == names_browser(lowercased(class@)),
        is_ascii_text(class@) ==> r == names_browser(ascii_lowercased(class@)),
{
    is_browser_name(lowercase(class).as_str())
}

/// A buffer for a title of `title_len` units and the zero behind it; an empty one
/// where there is no title.
pub fn title_buffer(title_len: i32) -> (r: Vec<u16>)
    requires
        title_len < i32::MAX,
        (title_len + 1) * 2 <= isize::MAX,
    ensures
        r@.len() == if title_len > 0 { title_len + 1 } else { 0 },
        forall|i: int| 0 <= i < r@.len() ==> r@[i] == 0,
{
    if title_len > 0 {
        vec![0u16; (title_len + 1) as usize]
    } else {
        Vec::new()
    }
}

/// A buffer for a class name.
pub fn class_buffer() -> (r: Vec<u16>)
    ensures
        r@.len() == CLASS_UNITS,
        forall|i: int| 0 <= i < r@.len() ==> r@[i] == 0,
{
    vec![0u16; CLASS_UNITS]
}

fn report(units: &Vec<u16>, len: i32) -> (r: Option<String>)
    requires
        len <= units@.len(),
    ensures
        text_view(r) == reported_text(units@, len as int),
{
    if len > 0 {
        Some(utf16::decode(units, len as usize))
    } else {
        None
    }
}

/// What is told of the foreground window, or of the lack of one.
pub fn get_active_window_context_windows(window: Option<RawWindow>) -> (r: WindowContext)
    requires
        window matches Some(w) ==> w.wf(),
    ensures
        r@ == window_facts(window),
        tells_by_ascii(r@),
{
    match window {
        None => WindowContext { window_title: None, url: None, window_class: None, pid: None },
        Some(w) => {
            let window_title = report(&w.title, w.title_len);
            let window_class = report(&w.class, w.class_len);
            let browser = match &window_class {
                Some(class) => is_browser(class.as_str()),
                None => false,
            };
            let url = match &window_title {
                Some(title) => if browser {
                    Some(title.clone())
                } else {
                    None
                },
                None => None,
            };
            let pid = if w.pid > 0 {
                Some(w.pid)
            } else {
                None
            };
            WindowContext { window_title, url, window_class, pid }
        },
    }
}

/// Stores the context of the foreground window, in place of any stored before.
pub fn capture_and_store_window_context(slot: &mut ContextSlot, window: Option<RawWindow>)
    requires
        window matches Some(w) ==> w.wf(),
    ensures
        final(slot)@ == slot_stored(window),
        final(slot)@ matches Some(facts) && tells_by_ascii(facts),
{
    slot.stored = Some(get_active_window_context_windows(window));
}

/// Hands out the stored context and empties the slot. Where nothing was stored
/// there is nothing to hand out, and the window has to be looked at now.
pub fn get_active_window_context(slot: &mut ContextSlot) -> (r: Option<WindowContext>)
    ensures
        (
            match r {
                Some(context) => Some(context@),
                None => None,
            },
            final(slot)@,
        ) == slot_taken(old(slot)@),
{
    slot.stored.take()
}

/// A stored context is handed out once.
pub proof fn law_stored_context_is_handed_out_once(window: Option<RawWindow>)
    ensures
        ({
            let (out, left) = slot_taken(slot_stored(window));
            out == Some(window_facts(window)) && slot_taken(left).0 is None
        }),
{
}

/// An address is told only of a browser's window, and is its title then.
pub proof fn law_address_is_a_browser_title(window: Option<RawWindow>)
    ensures
        window_facts(window).url matches Some(url) ==> {
            &&& window_facts(window).window_title == Some(url)
            &&& is_browser_class(window_facts(window).window_class)
        },
        is_browser_class(window_facts(window).window_class) ==> window_facts(window).url
            == window_facts(window).window_title,
{
}

/// No window belongs to process zero.
pub proof fn law_no_process_zero(window: Option<RawWindow>)
    ensures
        window_facts(window).pid != Some(0u32),
{
}

/// One of the names by which a browser's window class is known.
pub open spec fn is_browser_word(word: Seq<char>) -> bool {
    ||| word == "chrome"@
    ||| word == "msedge"@
    ||| word == "firefox"@
    ||| word == "brave"@
    ||| word == "opera"@
}

/// Any title and any class name that the system encodes in the buffers is told
/// character for character, whatever stands behind it in the buffer.
pub proof fn law_texts_are_told_as_they_are(w: RawWindow, title: Seq<char>, class: Seq<char>)
    ensures
        title.len() > 0 && w.title_len == utf16::text_units(title).len() && utf16::text_units(
            title,
        ).is_prefix_of(w.title@) ==> window_facts(Some(w)).window_title == Some(title),
        class.len() > 0 && w.class_len == utf16::text_units(class).len() && utf16::text_units(
            class,
        ).is_prefix_of(w.class@) ==> window_facts(Some(w)).window_class == Some(class),
{
    utf16::law_decoding_undoes_encoding(title);
    utf16::law_decoding_undoes_encoding(class);
    utf16::lemma_text_units_len(title);
    utf16::lemma_text_units_len(class);
    let (t, c) = (utf16::text_units(title), utf16::text_units(class));
    if t.is_prefix_of(w.title@) && w.title_len == t.len() {
        assert(w.title@.take(w.title_len as int) =~= t);
    }
    if c.is_prefix_of(w.class@) && w.class_len == c.len() {
        assert(w.class@.take(w.class_len as int) =~= c);
    }
}

/// A title or class name is told exactly where it has a positive length, as what its
/// units decode to; the process exactly where it is not zero, as it is; and without a
/// window nothing is told.
pub proof fn law_each_fact_is_told_where_there_is_one(w: RawWindow)
    ensures
        window_facts(Some(w)).window_title is Some <==> w.title_len > 0,
        window_facts(Some(w)).window_class is Some <==> w.class_len > 0,
        w.title_len > 0 ==> window_facts(Some(w)).window_title == Some(
            utf16::utf16_text(w.title@.take(w.title_len as int)),
        ),
        w.class_len > 0 ==> window_facts(Some(w)).window_class == Some(
            utf16::utf16_text(w.class@.take(w.class_len as int)),
        ),
        w.pid != 0 ==> window_facts(Some(w)).pid == Some(w.pid),
        w.pid == 0 ==> window_facts(Some(w)).pid is None,
        window_facts(None).window_title is None,
        window_facts(None).url is None,
        window_facts(None).window_class is None,
        window_facts(None).pid is None,
{
}

/// A window is a browser's wherever its class name, in lower case, has a browser's
/// name in it, whatever stands before and behind that.
pub proof fn law_browser_is_known_by_its_name(
    before: Seq<char>,
    word: Seq<char>,
    behind: Seq<char>,
    class: Seq<char>,
)
    requires
        is_browser_word(word),
    ensures
        names_browser(before + word + behind),
        lowercased(class) == before + word + behind ==> is_browser_class(Some(class)),
{
    text::law_part_is_found(before, word, behind);
}

/// Only a window whose class name, in lower case, has a browser's name in it is a
/// browser's; one without a class name is none.
pub proof fn law_only_a_named_browser_is_one(class: Option<Seq<char>>)
    requires
        is_browser_class(class),
    ensures
        class matches Some(name) && exists|
            before: Seq<char>,
            word: Seq<char>,
            behind: Seq<char>,
        |
            is_browser_word(word) && lowercased(name) == #[trigger] (before + word + behind),
{
    let lower = lowercased(class->Some_0);
    let word = lemma_browser_word(lower);
    text::law_found_is_a_part(word, lower);
    let (before, behind) = choose|before: Seq<char>, behind: Seq<char>|
        lower == #[trigger] (before + word + behind);
    assert(lower == before + word + behind);
}

/// Lower case by ASCII changes the letters `A` to `Z`, each to its own small letter,
/// and nothing else.
pub proof fn law_ascii_lower_case_letter_by_letter(s: Seq<char>, i: int)
    requires
        0 <= i < s.len(),
    ensures
        ascii_lowercased(s).len() == s.len(),
        'A' <= s[i] <= 'Z' ==> ascii_lowercased(s)[i] as int - 'a' as int == s[i] as int
            - 'A' as int,
        !('A' <= s[i] <= 'Z') ==> ascii_lowercased(s)[i] == s[i],
{
}

/// Where the class name is ASCII, a browser's name in it, in letters of any size and
/// with anything before and behind, makes the title stand in for the address.
pub proof fn law_ascii_browser_tells_its_title(
    facts: WindowFacts,
    before: Seq<char>,
    name: Seq<char>,
    behind: Seq<char>,
)
    requires
        tells_by_ascii(facts),
        facts.window_class == Some(before + name + behind),
        is_ascii_text(before + name + behind),
        is_browser_word(ascii_lowercased(name)),
    ensures
        facts.url == facts.window_title,
{
    let class = before + name + behind;
    let (b, w, e) = (
        ascii_lowercased(before),
        ascii_lowercased(name),
        ascii_lowercased(behind),
    );
    assert(ascii_lowercased(class) =~= b + w + e);
    law_browser_is_known_by_its_name(b, w, e, class);
}

/// Where the class name is ASCII and has no browser's name in it, no address is told.
pub proof fn law_ascii_stranger_tells_no_address(facts: WindowFacts, class: Seq<char>)
    requires
        tells_by_ascii(facts),
        facts.window_class == Some(class),
        is_ascii_text(class),
        forall|before: Seq<char>, word: Seq<char>, behind: Seq<char>|
            is_browser_word(word) ==> ascii_lowercased(class) != #[trigger] (before + word
                + behind),
    ensures
        facts.url is None,
{
    let lower = ascii_lowercased(class);
    if names_browser(lower) {
        let word = lemma_browser_word(lower);
        text::law_found_is_a_part(word, lower);
    }
}

/// What comes out of a slot is what it held, and it holds nothing after that; what is
/// stored is there whatever was there before.
pub proof fn law_slot_gives_all_it_holds(slot: Option<WindowFacts>, window: Option<RawWindow>)
    ensures
        slot_taken(slot).0 == slot,
        slot_taken(slot).1 is None,
        slot_taken(slot_taken(slot).1).0 is None,
        slot_stored(window) == Some(window_facts(window)),
{
}

/// A context and a slot are seen as they are, with all that they hold.
pub proof fn law_views_are_faithful(context: WindowContext, slot: ContextSlot)
    ensures
        context.window_title is None <==> context@.window_title is None,
        context.window_title matches Some(t) ==> context@.window_title == Some(t@),
        context.url is None <==> context@.url is None,
        context.url matches Some(t) ==> context@.url == Some(t@),
        context.window_class is None <==> context@.window_class is None,
        context.window_class matches Some(t) ==> context@.window_class == Some(t@),
        context@.pid == context.pid,
        slot.stored is None <==> slot@ is None,
        slot.stored matches Some(held) ==> slot@ == Some(held@),
{
}

proof fn lemma_browser_word(lower: Seq<char>) -> (word: Seq<char>)
    requires
        names_browser(lower),
    ensures
        is_browser_word(word),
        text::occurs_in(word, lower),
{
    if text::occurs_in("chrome"@, lower) {
        "chrome"@
    } else if text::occurs_in("msedge"@, lower) {
        "msedge"@
    } else if text::occurs_in("firefox"@, lower) {
        "firefox"@
    } else if text::occurs_in("brave"@, lower) {
        "brave"@
    } else {
        "opera"@
    }
}

} // verus!
