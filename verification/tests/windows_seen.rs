use snap::utf16::decode;
use snap::window::{
    capture_and_store_window_context, class_buffer, get_active_window_context,
    get_active_window_context_windows, is_browser, is_browser_name, title_buffer, ContextSlot,
    RawWindow, WindowContext,
};

fn raw(title: &str, class: &str, pid: u32) -> RawWindow {
    let units: Vec<u16> = title.encode_utf16().collect();
    let mut title = title_buffer(units.len() as i32);
    for (i, unit) in units.iter().enumerate() {
        title[i] = *unit;
    }
    let class_units: Vec<u16> = class.encode_utf16().collect();
    let mut class = class_buffer();
    for (i, unit) in class_units.iter().enumerate() {
        class[i] = *unit;
    }
    RawWindow {
        title_len: units.len() as i32,
        title,
        class_len: class_units.len() as i32,
        class,
        pid,
    }
}

fn text(s: &str) -> Option<String> {
    Some(s.to_string())
}

#[test]
fn browser_window_tells_its_address() {
    assert_eq!(
        get_active_window_context_windows(Some(raw("Docs – 漢字 𝄞", "Chrome_WidgetWin_1", 7))),
        WindowContext {
            window_title: text("Docs – 漢字 𝄞"),
            url: text("Docs – 漢字 𝄞"),
            window_class: text("Chrome_WidgetWin_1"),
            pid: Some(7),
        }
    );
}

#[test]
fn other_window_tells_no_address() {
    assert_eq!(
        get_active_window_context_windows(Some(raw("notes.txt", "Notepad", 8))),
        WindowContext {
            window_title: text("notes.txt"),
            url: None,
            window_class: text("Notepad"),
            pid: Some(8),
        }
    );
}

#[test]
fn window_may_lack_everything() {
    let nothing = || WindowContext { window_title: None, url: None, window_class: None, pid: None };
    assert_eq!(get_active_window_context_windows(None), nothing());
    assert_eq!(get_active_window_context_windows(Some(raw("", "", 0))), nothing());
    let negative = RawWindow {
        title_len: -1,
        title: vec![],
        class_len: -1,
        class: vec![],
        pid: 0,
    };
    assert_eq!(get_active_window_context_windows(Some(negative)), nothing());
    let untitled = get_active_window_context_windows(Some(raw("", "OperaWindow", 3)));
    assert_eq!(untitled.url, None);
    assert_eq!(untitled.window_class, text("OperaWindow"));
}

#[test]
fn title_that_shrank_keeps_its_zeros() {
    let window = RawWindow {
        title_len: 3,
        title: vec![0x61, 0, 0, 0],
        class_len: 0,
        class: class_buffer(),
        pid: 1,
    };
    assert_eq!(get_active_window_context_windows(Some(window)).window_title, text("a\0\0"));
}

#[test]
fn browsers_are_known_by_class() {
    for class in ["CHROME", "x_MsEdge_x", "FireFox", "BraveWindow", "opera"] {
        assert!(is_browser(class));
    }
    for class in ["", "MozillaWindowClass", "chrom", "Op era", "CÉHROME"] {
        assert!(!is_browser(class));
    }
    assert!(is_browser("É chrome"));
    assert!(is_browser_name("a brave b") && !is_browser_name("BRAVE"));
    // The Kelvin sign is not a letter of any browser's name in lower case.
    assert!(!is_browser("\u{212A}"));
}

#[test]
fn stored_context_is_handed_out_once() {
    let mut slot = ContextSlot { stored: None };
    assert_eq!(get_active_window_context(&mut slot), None);
    capture_and_store_window_context(&mut slot, Some(raw("first", "A", 1)));
    capture_and_store_window_context(&mut slot, Some(raw("last", "B", 2)));
    assert_eq!(
        get_active_window_context(&mut slot),
        Some(WindowContext {
            window_title: text("last"),
            url: None,
            window_class: text("B"),
            pid: Some(2),
        })
    );
    assert_eq!(get_active_window_context(&mut slot), None);
    capture_and_store_window_context(&mut slot, None);
    assert_eq!(get_active_window_context(&mut slot).map(|c| c.window_title), Some(None));
}

#[test]
fn lone_surrogates_are_replaced() {
    let music: Vec<u16> = vec![
        0xD834, 0xDD1E, 0x6D, 0x75, 0x73, 0xDD1E, 0x69, 0x63, 0xD834,
    ];
    assert_eq!(decode(&music, 9), "𝄞mus\u{FFFD}ic\u{FFFD}");
    let samples: Vec<Vec<u16>> = vec![
        vec![],
        vec![0xD7FF, 0xE000, 0xFFFF],
        vec![0xD800, 0xD800, 0xDC00],
        vec![0xDBFF, 0xDFFF],
        vec![0xDC00, 0xD800],
        vec![0xD800, 0x41],
    ];
    for units in samples {
        assert_eq!(decode(&units, units.len()), String::from_utf16_lossy(&units));
    }
    assert_eq!(decode(&vec![0xD834, 0xDD1E], 1), "\u{FFFD}");
}

#[test]
fn buffers_are_zero() {
    assert_eq!(title_buffer(3), vec![0, 0, 0, 0]);
    assert_eq!(title_buffer(0), Vec::<u16>::new());
    assert_eq!(title_buffer(-5), Vec::<u16>::new());
    assert_eq!(class_buffer(), vec![0; 256]);
}
