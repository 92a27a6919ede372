use snap::annotation::{
    annotated_metadata, decoded_image, file_names, image_path, metadata_path, name_image,
    printed_metadata, save_annotation, save_request, save_result, saved_message, write_target,
    FileNames, SaveEvent, SavePhase, SaveRequest,
};
use snap::capture::{
    capture_message, capture_screen, choose_screen, read_capture_base64, CaptureEvent, CapturePhase,
};
use snap::clock::Moment;
use snap::places::{Base, Place};

type Phase = SavePhase<String, Vec<u8>>;

fn request(metadata: &str, image: Option<&str>) -> SaveRequest {
    SaveRequest {
        metadata_json: metadata.to_string(),
        image_base64: image.map(|s| s.to_string()),
        names: file_names("20150515-000000.123"),
    }
}

fn save(request: &SaveRequest, events: Vec<SaveEvent<String>>) -> Phase {
    let mut phase = SavePhase::FindHome;
    for event in events {
        phase = save_annotation(request, phase, event);
    }
    phase
}

fn failed(reason: &str) -> Phase {
    SavePhase::Failed(reason.to_string())
}

#[test]
fn files_are_named_by_the_moment() {
    assert_eq!(
        file_names("20150515-000000.123"),
        FileNames {
            png: "snap-20150515-000000-123.png".to_string(),
            json: "snap-20150515-000000-123.json".to_string(),
        }
    );
    assert_eq!(file_names("..").png, "snap---.png");
}

#[test]
fn request_is_stamped_in_utc_with_milliseconds() {
    let now = Moment { secs: 1_431_648_000, nanos: 123_456_789 };
    let r = save_request("{}".to_string(), Some("aGk=".to_string()), now);
    assert_eq!(r.metadata_json, "{}");
    assert_eq!(r.image_base64, Some("aGk=".to_string()));
    assert_eq!(r.names.png, "snap-20150515-000000-123.png");
    assert_eq!(r.names.json, "snap-20150515-000000-123.json");
    assert_eq!(saved_message(&r), "Saved annotation: snap-20150515-000000-123.png");
}

#[test]
fn annotation_with_an_image_is_saved() {
    let r = request("{\"note\":\"hi\"}", Some("aGVsbG8="));
    let image = save(&r, vec![SaveEvent::Home(true), SaveEvent::InboxCreated]);
    assert_eq!(image, SavePhase::WriteImage(b"hello".to_vec()));
    let metadata = save_annotation(&r, image, SaveEvent::ImageWritten);
    let text = "{\n  \"image_filename\": \"snap-20150515-000000-123.png\",\n  \"note\": \"hi\"\n}";
    assert_eq!(metadata, SavePhase::WriteMetadata(text.to_string()));
    assert_eq!(save_annotation(&r, metadata, SaveEvent::MetadataWritten), SavePhase::Saved);
}

#[test]
fn annotation_without_an_image_takes_the_raw_capture() {
    let r = request("{}", None);
    let events = vec![SaveEvent::Home(true), SaveEvent::InboxCreated];
    assert_eq!(save(&r, events), SavePhase::FindCapture);
    let events = vec![
        SaveEvent::Home(true),
        SaveEvent::InboxCreated,
        SaveEvent::Capture(true),
    ];
    assert_eq!(save(&r, events), SavePhase::CopyCapture);
    let events = vec![
        SaveEvent::Home(true),
        SaveEvent::InboxCreated,
        SaveEvent::Capture(true),
        SaveEvent::ImageWritten,
        SaveEvent::MetadataWritten,
    ];
    assert_eq!(save(&r, events), SavePhase::Saved);
}

#[test]
fn save_fails_without_a_home_directory() {
    let r = request("{}", None);
    assert_eq!(
        save(&r, vec![SaveEvent::Home(false)]),
        failed("Could not determine home directory")
    );
}

#[test]
fn save_fails_without_an_inbox() {
    let r = request("{}", None);
    let events = vec![SaveEvent::Home(true), SaveEvent::InboxFailed("denied".to_string())];
    assert_eq!(save(&r, events), failed("Failed to create inbox: denied"));
}

#[test]
fn save_fails_on_bad_base64_before_anything_is_written() {
    let r = request("not json", Some("a$b="));
    let events = vec![
        SaveEvent::Home(true),
        SaveEvent::InboxCreated,
        SaveEvent::ImageWritten,
        SaveEvent::MetadataWritten,
    ];
    assert_eq!(save(&r, events), failed("Base64 decode failed: Invalid symbol 36, offset 1."));
    let r = request("{}", Some("aGVsbG8"));
    let events = vec![SaveEvent::Home(true), SaveEvent::InboxCreated];
    assert_eq!(save(&r, events), failed("Base64 decode failed: Invalid padding"));
}

#[test]
fn save_fails_without_a_capture() {
    let r = request("{}", None);
    let events = vec![
        SaveEvent::Home(true),
        SaveEvent::InboxCreated,
        SaveEvent::Capture(false),
    ];
    assert_eq!(save(&r, events), failed("No capture file found"));
}

#[test]
fn save_fails_where_the_image_cannot_be_written() {
    let r = request("{}", Some(""));
    let events = vec![
        SaveEvent::Home(true),
        SaveEvent::InboxCreated,
        SaveEvent::ImageFailed("full".to_string()),
    ];
    assert_eq!(save(&r, events), failed("Failed to write PNG: full"));
    let r = request("{}", None);
    let events = vec![
        SaveEvent::Home(true),
        SaveEvent::InboxCreated,
        SaveEvent::Capture(true),
        SaveEvent::ImageFailed("full".to_string()),
    ];
    assert_eq!(save(&r, events), failed("Failed to copy capture: full"));
}

#[test]
fn save_fails_on_bad_metadata_after_the_image_is_written() {
    let r = request("", Some(""));
    let image = save(&r, vec![SaveEvent::Home(true), SaveEvent::InboxCreated]);
    assert_eq!(image, SavePhase::WriteImage(vec![]));
    assert_eq!(
        save_annotation(&r, image, SaveEvent::ImageWritten),
        failed("Invalid JSON: EOF while parsing a value at line 1 column 0")
    );
}

#[test]
fn save_fails_where_the_metadata_cannot_be_written() {
    let r = request("{}", Some(""));
    let events = vec![
        SaveEvent::Home(true),
        SaveEvent::InboxCreated,
        SaveEvent::ImageWritten,
        SaveEvent::MetadataFailed("full".to_string()),
    ];
    assert_eq!(save(&r, events), failed("Failed to write metadata: full"));
}

#[test]
fn save_ignores_events_out_of_turn() {
    let r = request("{}", None);
    assert_eq!(save(&r, vec![SaveEvent::MetadataWritten]), SavePhase::FindHome);
    let events = vec![SaveEvent::Home(false), SaveEvent::Home(true)];
    assert_eq!(save(&r, events), failed("Could not determine home directory"));
}

#[test]
fn metadata_of_null_becomes_an_object() {
    assert_eq!(
        annotated_metadata("null", "a.png"),
        SavePhase::WriteMetadata("{\n  \"image_filename\": \"a.png\"\n}".to_string())
    );
}

#[test]
fn metadata_that_names_another_image_is_corrected() {
    assert_eq!(
        annotated_metadata("{\"z\":[1],\"image_filename\":7}", "b.png"),
        SavePhase::WriteMetadata(
            "{\n  \"image_filename\": \"b.png\",\n  \"z\": [\n    1\n  ]\n}".to_string()
        )
    );
}

#[test]
fn metadata_that_is_no_object_is_refused() {
    for metadata in ["[]", "3", "\"x\"", "true"] {
        assert_eq!(
            annotated_metadata(metadata, "a.png"),
            failed("Metadata is not a JSON object")
        );
    }
    let r = request("[]", Some(""));
    let events = vec![
        SaveEvent::Home(true),
        SaveEvent::InboxCreated,
        SaveEvent::ImageWritten,
        SaveEvent::MetadataWritten,
    ];
    assert_eq!(save(&r, events), failed("Metadata is not a JSON object"));
}

#[test]
fn metadata_of_null_reads_back_as_the_image_name_alone() {
    let png = "q\"\u{1}\u{1F600}.png";
    let text = match annotated_metadata("null", png) {
        SavePhase::WriteMetadata(text) => text,
        other => panic!("{:?}", other),
    };
    let document: serde_json::Value = serde_json::from_str(&text).unwrap();
    let members = document.as_object().unwrap();
    assert_eq!(members.len(), 1);
    assert_eq!(members["image_filename"], serde_json::Value::String(png.to_string()));
}

fn read_back(metadata: &str, png: &str) -> serde_json::Map<String, serde_json::Value> {
    match annotated_metadata(metadata, png) {
        SavePhase::WriteMetadata(text) => match serde_json::from_str(&text).unwrap() {
            serde_json::Value::Object(members) => members,
            other => panic!("{:?}", other),
        },
        other => panic!("{:?}", other),
    }
}

#[test]
fn metadata_reads_back_with_its_own_members() {
    let string = |s: &str| serde_json::Value::String(s.to_string());
    let flat = read_back("{\"note\":\"x\",\"none\":null,\"image_filename\":\"old\"}", "a.png");
    assert_eq!(flat.len(), 3);
    assert_eq!(flat["note"], string("x"));
    assert_eq!(flat["none"], serde_json::Value::Null);
    assert_eq!(flat["image_filename"], string("a.png"));
    let mixed = read_back("{\"\\u0000\":\"\\n\",\"f\":0.1,\"l\":[[1],{}]}", "b.png");
    assert_eq!(mixed.len(), 4);
    assert_eq!(mixed["\0"], string("\n"));
    assert_eq!(mixed["image_filename"], string("b.png"));
    assert!(mixed.contains_key("f") && mixed.contains_key("l"));
}

fn in_inbox(name: &str) -> Place {
    let names = [".snap", "inbox", name];
    Place { base: Base::Home, names: names.iter().map(|s| s.to_string()).collect() }
}

#[test]
fn both_files_stand_in_the_inbox() {
    let r = request("{}", None);
    let png = in_inbox("snap-20150515-000000-123.png");
    let json = in_inbox("snap-20150515-000000-123.json");
    assert_eq!(image_path(&r.names), png);
    assert_eq!(metadata_path(&r.names), json);
    assert_eq!(write_target(&r, &SavePhase::WriteImage(vec![])), Some(image_path(&r.names)));
    assert_eq!(write_target(&r, &SavePhase::CopyCapture), Some(png));
    assert_eq!(write_target(&r, &SavePhase::WriteMetadata(String::new())), Some(json));
    for phase in [SavePhase::FindHome, SavePhase::CreateInbox, SavePhase::FindCapture, SavePhase::Saved] {
        assert_eq!(write_target(&r, &phase), None);
    }
}

#[test]
fn save_is_answered_with_the_image() {
    let r = request("{}", None);
    assert_eq!(save_result(&r, &SavePhase::Saved), Some(Ok(image_path(&r.names))));
    assert_eq!(save_result(&r, &failed("why")), Some(Err("why".to_string())));
    assert_eq!(save_result(&r, &SavePhase::CopyCapture), None);
}

/// The digits of a day after the epoch, reckoned year by year and month by month.
fn date_digits(day: i64) -> String {
    let leap = |y: i64| y % 4 == 0 && (y % 100 != 0 || y % 400 == 0);
    let mut left = day + 719_528;
    let mut year = 0;
    while left >= if leap(year) { 366 } else { 365 } {
        left -= if leap(year) { 366 } else { 365 };
        year += 1;
    }
    let mut month = 1;
    loop {
        let len = match month {
            2 => 28 + leap(year) as i64,
            4 | 6 | 9 | 11 => 30,
            _ => 31,
        };
        if left < len {
            return format!("{:04}{:02}{:02}", year, month, left + 1);
        }
        left -= len;
        month += 1;
    }
}

#[test]
fn later_files_sort_later() {
    let mut last = String::new();
    let first: i64 = -719_528;
    let end: i64 = 2_932_897;
    let mut day = first;
    while day < end {
        let second = (day - first) % 86_400;
        let now = Moment { secs: day * 86_400 + second, nanos: 7_999_999 };
        let png = save_request(String::new(), None, now).names.png;
        let time = format!("{:02}{:02}{:02}", second / 3600, second / 60 % 60, second % 60);
        assert_eq!(png, format!("snap-{}-{}-007.png", date_digits(day), time));
        assert_eq!(png.len(), 28);
        assert!(last < png);
        last = png;
        day += 97;
    }
    let at = |secs: i64, nanos: u32| save_request(String::new(), None, Moment { secs, nanos }).names.png;
    assert!(at(5, 999_999_999) < at(6, 0));
    assert!(at(5, 998_999_999) < at(5, 999_000_000));
    assert_eq!(at(5, 1_000_000), at(5, 1_999_999));
    assert_eq!(at(-62_167_219_200, 0), "snap-00000101-000000-000.png");
    assert_eq!(at(253_402_300_799, 999_999_999), "snap-99991231-235959-999.png");
    assert_eq!(at(1_767_323_045, 678_000_000), "snap-20260102-030405-678.png");
}

#[test]
fn document_is_made_to_name_its_image() {
    let document = serde_json::Value::Object(serde_json::Map::new());
    assert_eq!(
        name_image(document, "c.png"),
        SavePhase::WriteMetadata("{\n  \"image_filename\": \"c.png\"\n}".to_string())
    );
}

#[test]
fn outside_outcomes_are_passed_on() {
    assert_eq!(decoded_image(Ok(vec![1, 2])), SavePhase::WriteImage(vec![1, 2]));
    assert_eq!(decoded_image(Err("e".to_string())), failed("Base64 decode failed: e"));
    assert_eq!(
        printed_metadata(Ok("{}".to_string())),
        SavePhase::WriteMetadata("{}".to_string())
    );
    assert_eq!(printed_metadata(Err("e".to_string())), failed("JSON serialize: e"));
}

#[test]
fn capture_comes_back_unchanged() {
    for len in 0..50usize {
        let bytes: Vec<u8> = (0..len).map(|i| (i * 37 + len) as u8).collect();
        let encoded = read_capture_base64(Ok(bytes.clone())).unwrap();
        assert_eq!(encoded.len(), (len + 2) / 3 * 4);
        let r = request("{}", Some(&encoded));
        let events = vec![SaveEvent::Home(true), SaveEvent::InboxCreated];
        assert_eq!(save(&r, events), SavePhase::WriteImage(bytes));
    }
}

#[test]
fn capture_is_read_as_base64() {
    assert_eq!(read_capture_base64(Ok(b"hello".to_vec())), Ok("aGVsbG8=".to_string()));
    assert_eq!(
        read_capture_base64(Err("not found".to_string())),
        Err("Failed to read capture: not found".to_string())
    );
}

fn shoot(events: Vec<CaptureEvent<String, Vec<bool>>>) -> CapturePhase<String> {
    let mut phase = CapturePhase::Discard;
    for event in events {
        phase = capture_screen(phase, event);
    }
    phase
}

#[test]
fn primary_screen_is_chosen() {
    assert_eq!(choose_screen(&vec![false, true, true]), Some(1));
    assert_eq!(choose_screen(&vec![false, false]), Some(0));
    assert_eq!(choose_screen(&vec![]), None);
}

#[test]
fn screen_is_captured() {
    assert_eq!(shoot(vec![CaptureEvent::Discarded(true)]), CapturePhase::ListScreens);
    let events = || {
        vec![
            CaptureEvent::Discarded(true),
            CaptureEvent::Screens(vec![false, true]),
            CaptureEvent::Captured,
            CaptureEvent::Saved,
        ]
    };
    let mut done = events();
    done.push(CaptureEvent::Size(Some(1)));
    assert_eq!(shoot(done), CapturePhase::Done);
    let mut empty = events();
    empty.push(CaptureEvent::Size(Some(0)));
    assert_eq!(
        shoot(empty),
        CapturePhase::Failed("Screen capture produced empty file".to_string())
    );
    let mut missing = events();
    missing.push(CaptureEvent::Size(None));
    assert_eq!(
        shoot(missing),
        CapturePhase::Failed("Screen capture produced empty file".to_string())
    );
}

#[test]
fn capture_is_logged_when_it_ends() {
    assert_eq!(
        capture_message(&CapturePhase::Done),
        Some("screen captured via screenshots crate".to_string())
    );
    assert_eq!(
        capture_message(&CapturePhase::Failed("No screens found".to_string())),
        Some("capture failed: No screens found".to_string())
    );
    assert_eq!(capture_message(&CapturePhase::Measure), None);
}

#[test]
fn capture_fails_for_a_reason() {
    let reason = |s: &str| CapturePhase::Failed(s.to_string());
    assert_eq!(
        shoot(vec![CaptureEvent::Discarded(false)]),
        reason("snap-pc only supports Windows")
    );
    assert_eq!(
        shoot(vec![CaptureEvent::Discarded(true), CaptureEvent::ListFailed("x".to_string())]),
        reason("Failed to list screens: x")
    );
    assert_eq!(
        shoot(vec![CaptureEvent::Discarded(true), CaptureEvent::Screens(vec![])]),
        reason("No screens found")
    );
    assert_eq!(
        shoot(vec![
            CaptureEvent::Discarded(true),
            CaptureEvent::Screens(vec![true]),
            CaptureEvent::CaptureFailed("x".to_string()),
        ]),
        reason("Screen capture failed: x")
    );
    assert_eq!(
        shoot(vec![
            CaptureEvent::Discarded(true),
            CaptureEvent::Screens(vec![true]),
            CaptureEvent::Captured,
            CaptureEvent::SaveFailed("x".to_string()),
        ]),
        reason("Failed to save capture: x")
    );
}
