//! Filing an annotated capture: an image and the metadata that names it.
use crate::clock;
use crate::clock::Moment;
use crate::codec;
use crate::json;
use crate::places;
use crate::places::{Base, Place};
use crate::text;
use vstd::prelude::*;

verus! {

/// The member of the metadata that names the image.
pub const IMAGE_KEY: &'static str = "image_filename";

/// The names of the two files that an annotation is kept in.
#[derive(Debug, PartialEq, Eq)]
pub struct FileNames {
    pub png: String,
    pub json: String,
}

/// What is to be filed.
#[derive(Debug, PartialEq, Eq)]
pub struct SaveRequest {
    /// The metadata, as JSON.
    pub metadata_json: String,
    /// The image, as Base64; the raw capture where there is none.
    pub image_base64: Option<String>,
    /// The files to be written.
    pub names: FileNames,
}

/// What is to be done next to file an annotation, or how the attempt ended.
#[derive(Debug, PartialEq, Eq)]
pub enum SavePhase<S, B> {
    /// Find the home directory.
    FindHome,
    /// Create the inbox.
    CreateInbox,
    /// Write these bytes to the image's file.
    WriteImage(B),
    /// Find out whether there is a raw capture.
    FindCapture,
    /// Copy the raw capture to the image's file.
    CopyCapture,
    /// Write this text to the metadata's file.
    WriteMetadata(S),
    /// Both files are written.
    Saved,
    /// The annotation is not filed, for this reason.
    Failed(S),
}

/// What came of the last thing done.
#[derive(Debug, PartialEq, Eq)]
pub enum SaveEvent<S> {
    /// Whether there is a home directory.
    Home(bool),
    /// The inbox is there.
    InboxCreated,
    /// The inbox could not be created.
    InboxFailed(S),
    /// Whether there is a raw capture.
    Capture(bool),
    /// The image's file is written.
    ImageWritten,
    /// The image's file could not be written.
    ImageFailed(S),
    /// The metadata's file is written.
    MetadataWritten,
    /// The metadata's file could not be written.
    MetadataFailed(S),
}

/// What a `SaveRequest` holds.
pub ghost struct SaveRequestView {
    pub metadata_json: Seq<char>,
    pub image_base64: Option<Seq<char>>,
    pub png: Seq<char>,
    pub json: Seq<char>,
}

/// What an attempt is answered with: where the image is, or why there is none.
pub ghost enum Answer {
    Image((Base, Seq<Seq<char>>)),
    Refusal(Seq<char>),
}

/// A phase in terms of characters and bytes.
pub type SavePhaseView = SavePhase<Seq<char>, Seq<u8>>;

impl View for SaveRequest {
    type V = SaveRequestView;

    open spec fn view(&self) -> SaveRequestView {
        SaveRequestView {
            metadata_json: self.metadata_json@,
            image_base64: match self.image_base64 {
                Some(encoded) => Some(encoded@),
                None => None,
            },
            png: self.names.png@,
            json: self.names.json@,
        }
    }
}

impl View for SavePhase<String, Vec<u8>> {
    type V = SavePhaseView;

    open spec fn view(&self) -> SavePhaseView {
        match *self {
            SavePhase::FindHome => SavePhase::FindHome,
            SavePhase::CreateInbox => SavePhase::CreateInbox,
            SavePhase::WriteImage(bytes) => SavePhase::WriteImage(bytes@),
            SavePhase::FindCapture => SavePhase::FindCapture,
            SavePhase::CopyCapture => SavePhase::CopyCapture,
            SavePhase::WriteMetadata(document) => SavePhase::WriteMetadata(document@),
            SavePhase::Saved => SavePhase::Saved,
            SavePhase::Failed(reason) => SavePhase::Failed(reason@),
        }
    }
}

impl View for SaveEvent<String> {
    type V = SaveEvent<Seq<char>>;

    open spec fn view(&self) -> SaveEvent<Seq<char>> {
        match *self {
            SaveEvent::Home(found) => SaveEvent::Home(found),
            SaveEvent::InboxCreated => SaveEvent::InboxCreated,
            SaveEvent::InboxFailed(e) => SaveEvent::InboxFailed(e@),
            SaveEvent::Capture(found) => SaveEvent::Capture(found),
            SaveEvent::ImageWritten => SaveEvent::ImageWritten,
            SaveEvent::ImageFailed(e) => SaveEvent::ImageFailed(e@),
            SaveEvent::MetadataWritten => SaveEvent::MetadataWritten,
            SaveEvent::MetadataFailed(e) => SaveEvent::MetadataFailed(e@),
        }
    }
}

/// What an annotation's files are called before the ending: the moment, in
/// which no dot is left.
pub open spec fn file_stem(stamp: Seq<char>) -> Seq<char> {
    "snap-"@ + text::replaced(stamp, '.', '-')
}

/// What the image's file is called.
pub open spec fn png_name(stamp: Seq<char>) -> Seq<char> {
    file_stem(stamp) + ".png"@
}

/// What the metadata's file is called.
pub open spec fn json_name(stamp: Seq<char>) -> Seq<char> {
    file_stem(stamp) + ".json"@
}

/// A document with the image that it goes with named in it.
pub open spec fn naming(document: serde_json::Value, png: Seq<char>) -> serde_json::Value {
    json::json_with_member(document, IMAGE_KEY@, json::json_string(png))
}

/// `document` and `named` have the same members but for the image, which `named`
/// names.
pub open spec fn names_image(
    named: serde_json::Value,
    document: serde_json::Value,
    png: Seq<char>,
) -> bool {
    json::json_members(named) == Some(
        json::json_entries(document).insert(IMAGE_KEY@, json::json_string(png)),
    )
}

/// What the metadata to be written in `phase` reads back as, where it is `named`
/// printed: `named` itself, where it holds nothing but strings and `null`, and
/// otherwise, if anything, an object with its keys and its strings.
pub open spec fn reads_back(phase: SavePhaseView, named: serde_json::Value) -> bool {
    &&& phase is WriteMetadata
    &&& json::json_is_flat(named) ==> json::reads_as(phase->WriteMetadata_0, named)
    &&& json::keeps_members(phase->WriteMetadata_0, named)
}

/// The members of an object that holds the image's name and nothing else.
pub open spec fn image_entry(png: Seq<char>) -> Map<Seq<char>, serde_json::Value> {
    map![IMAGE_KEY@ => json::json_string(png)]
}

/// `phase` is to write metadata that reads back as an object which holds the
/// image's name and nothing else.
pub open spec fn writes_image_name_alone(phase: SavePhaseView, png: Seq<char>) -> bool {
    phase matches SavePhase::WriteMetadata(text) && exists|document: serde_json::Value| #[trigger]
        json::reads_as(text, document) && json::json_members(document) == Some(image_entry(png))
}

/// Where the outcome of printing the metadata leads.
pub open spec fn printed_phase(printed: Result<Seq<char>, Seq<char>>) -> SavePhaseView {
    match printed {
        Ok(document) => SavePhase::WriteMetadata(document),
        Err(e) => SavePhase::Failed("JSON serialize: "@ + e),
    }
}

/// Where the outcome of decoding the image leads.
pub open spec fn decoded_phase(decoded: Result<Seq<u8>, Seq<char>>) -> SavePhaseView {
    match decoded {
        Ok(bytes) => SavePhase::WriteImage(bytes),
        Err(e) => SavePhase::Failed("Base64 decode failed: "@ + e),
    }
}

/// The text of a document, or what is said of why it has none.
pub open spec fn printed(document: serde_json::Value) -> Result<Seq<char>, Seq<char>> {
    match json::json_pretty(document) {
        Ok(text) => Ok(text),
        Err(e) => Err(json::json_error_text(e)),
    }
}

/// What Base64 text decodes to, or what is said of why it does not.
pub open spec fn decoded(encoded: Seq<char>) -> Result<Seq<u8>, Seq<char>> {
    match codec::base64_decoded(encoded) {
        Ok(bytes) => Ok(bytes),
        Err(e) => Err(codec::base64_error_text(e)),
    }
}

/// Where the metadata leads once the image is written. Metadata that is neither an
/// object nor `null` cannot name the image, and is refused.
pub open spec fn metadata_phase(metadata_json: Seq<char>, png: Seq<char>) -> SavePhaseView {
    match json::json_parsed(metadata_json) {
        Ok(document) => if json::json_takes_members(document) {
            printed_phase(printed(naming(document, png)))
        } else {
            SavePhase::Failed("Metadata is not a JSON object"@)
        },
        Err(e) => SavePhase::Failed("Invalid JSON: "@ + json::json_error_text(e)),
    }
}

/// Where the image leads once the inbox is there.
pub open spec fn image_phase(image_base64: Option<Seq<char>>) -> SavePhaseView {
    match image_base64 {
        Some(encoded) => decoded_phase(decoded(encoded)),
        None => SavePhase::FindCapture,
    }
}

/// The phase that follows `phase` upon `event`. An event that does not answer
/// the phase changes nothing.
pub open spec fn save_next(
    request: SaveRequestView,
    phase: SavePhaseView,
    event: SaveEvent<Seq<char>>,
) -> SavePhaseView {
    match (phase, event) {
        (SavePhase::FindHome, SaveEvent::Home(true)) => SavePhase::CreateInbox,
        (SavePhase::FindHome, SaveEvent::Home(false)) => SavePhase::Failed(
            "Could not determine home directory"@,
        ),
        (SavePhase::CreateInbox, SaveEvent::InboxCreated) => image_phase(request.image_base64),
        (SavePhase::CreateInbox, SaveEvent::InboxFailed(e)) => SavePhase::Failed(
            "Failed to create inbox: "@ + e,
        ),
        (SavePhase::FindCapture, SaveEvent::Capture(true)) => SavePhase::CopyCapture,
        (SavePhase::FindCapture, SaveEvent::Capture(false)) => SavePhase::Failed(
            "No capture file found"@,
        ),
        (SavePhase::WriteImage(_), SaveEvent::ImageWritten) => metadata_phase(
            request.metadata_json,
            request.png,
        ),
        (SavePhase::WriteImage(_), SaveEvent::ImageFailed(e)) => SavePhase::Failed(
            "Failed to write PNG: "@ + e,
        ),
        (SavePhase::CopyCapture, SaveEvent::ImageWritten) => metadata_phase(
            request.metadata_json,
            request.png,
        ),
        (SavePhase::CopyCapture, SaveEvent::ImageFailed(e)) => SavePhase::Failed(
            "Failed to copy capture: "@ + e,
        ),
        (SavePhase::WriteMetadata(_), SaveEvent::MetadataWritten) => SavePhase::Saved,
        (SavePhase::WriteMetadata(_), SaveEvent::MetadataFailed(e)) => SavePhase::Failed(
            "Failed to write metadata: "@ + e,
        ),
        (phase, _) => phase,
    }
}

/// Where the image's file is: in the inbox.
pub open spec fn image_place(png: Seq<char>) -> (Base, Seq<Seq<char>>) {
    places::below(places::inbox_place(), png)
}

/// Where the metadata's file is: in the inbox, beside the image's.
pub open spec fn metadata_place(json: Seq<char>) -> (Base, Seq<Seq<char>>) {
    places::below(places::inbox_place(), json)
}

/// The file that `phase` writes, if it writes one.
pub open spec fn target_of(request: SaveRequestView, phase: SavePhaseView) -> Option<
    (Base, Seq<Seq<char>>),
> {
    match phase {
        SavePhase::WriteImage(_) => Some(image_place(request.png)),
        SavePhase::CopyCapture => Some(image_place(request.png)),
        SavePhase::WriteMetadata(_) => Some(metadata_place(request.json)),
        _ => None,
    }
}

/// What the attempt is answered with, once it has ended.
pub open spec fn answer_of(request: SaveRequestView, phase: SavePhaseView) -> Option<Answer> {
    match phase {
        SavePhase::Saved => Some(Answer::Image(image_place(request.png))),
        SavePhase::Failed(reason) => Some(Answer::Refusal(reason)),
        _ => None,
    }
}

/// The phase that `events` lead to from `FindHome`, in order.
pub open spec fn save_run(
    request: SaveRequestView,
    events: Seq<SaveEvent<Seq<char>>>,
) -> SavePhaseView
    decreases events.len(),
{
    if events.len() == 0 {
        SavePhase::FindHome
    } else {
        save_next(request, save_run(request, events.drop_last()), events.last())
    }
}

/// The names of an annotation's files, from the moment as it is written in them.
pub fn file_names(stamp: &str) -> (r: FileNames)
    ensures
        r.png@ == png_name(stamp@),
        r.json@ == json_name(stamp@),
{
    let stem = text::joined("snap-", text::replace_char(stamp, '.', '-').as_str());
    FileNames { png: text::joined(stem.as_str(), ".png"), json: stem.concat(".json") }
}

/// A request to file an annotation at the moment `now`.
pub fn save_request(metadata_json: String, image_base64: Option<String>, now: Moment) -> (r:
    SaveRequest)
    requires
        clock::in_calendar(now),
    ensures
        r.metadata_json == metadata_json,
        r.image_base64 == image_base64,
        r.names.png@ == png_name(clock::utc_text(now.secs, now.nanos, clock::FILE_PATTERN@)),
        r.names.json@ == json_name(clock::utc_text(now.secs, now.nanos, clock::FILE_PATTERN@)),
        clock::is_plain(now) ==> clock::is_file_stamp(
            now,
            clock::utc_text(now.secs, now.nanos, clock::FILE_PATTERN@),
            '.',
        ),
{
    let stamp = clock::format_utc(now, clock::FILE_PATTERN).unwrap();
    SaveRequest { metadata_json, image_base64, names: file_names(stamp.as_str()) }
}

/// Where the outcome of decoding the image leads: its bytes are to be written, or
/// what is said of the error is passed on.
pub fn decoded_image(decoded: Result<Vec<u8>, String>) -> (r: SavePhase<String, Vec<u8>>)
    ensures
        r@ == decoded_phase(
            match decoded {
                Ok(bytes) => Ok(bytes@),
                Err(e) => Err(e@),
            },
        ),
{
    match decoded {
        Ok(bytes) => SavePhase::WriteImage(bytes),
        Err(e) => SavePhase::Failed(text::joined("Base64 decode failed: ", e.as_str())),
    }
}

/// Where the outcome of printing the metadata leads: its text is to be written, or
/// what is said of the error is passed on.
pub fn printed_metadata(printed: Result<String, String>) -> (r: SavePhase<String, Vec<u8>>)
    ensures
        r@ == printed_phase(
            match printed {
                Ok(document) => Ok(document@),
                Err(e) => Err(e@),
            },
        ),
{
    match printed {
        Ok(document) => SavePhase::WriteMetadata(document),
        Err(e) => SavePhase::Failed(text::joined("JSON serialize: ", e.as_str())),
    }
}

/// Where the image leads once the inbox is there.
fn locate_image(image_base64: &Option<String>) -> (r: SavePhase<String, Vec<u8>>)
    ensures
        r@ == image_phase(
            match *image_base64 {
                Some(encoded) => Some(encoded@),
                None => None,
            },
        ),
{
    match image_base64 {
        Some(encoded) => match codec::decode(encoded.as_str()) {
            Ok(bytes) => decoded_image(Ok(bytes)),
            Err(e) => decoded_image(Err(codec::error_text(&e))),
        },
        None => SavePhase::FindCapture,
    }
}

/// Where a document leads that is made to name its image. No other member of it
/// changes.
pub fn name_image(document: serde_json::Value, png: &str) -> (r: SavePhase<String, Vec<u8>>)
    requires
        json::json_takes_members(document),
    ensures
        r@ == printed_phase(printed(naming(document, png@))),
        reads_back(r@, naming(document, png@)),
        names_image(naming(document, png@), document, png@),
        json::json_entries(document) == Map::<Seq<char>, serde_json::Value>::empty()
            ==> writes_image_name_alone(r@, png@),
{
    let mut named = document;
    json::set_member(&mut named, IMAGE_KEY, json::string(png.to_owned()));
    let ghost alone = image_entry(png@);
    proof {
        if json::json_entries(document) == Map::<Seq<char>, serde_json::Value>::empty() {
            assert(json::json_entries(document).insert(IMAGE_KEY@, json::json_string(png@))
                =~= alone);
            assert forall|key: Seq<char>| #[trigger]
                alone.contains_key(key) implies json::json_is_plain(alone[key]) by {
                assert(alone[key] == json::json_string(png@));
            }
            assert(json::json_is_flat(named));
        }
    }
    match json::pretty(&named) {
        Ok(text) => {
            let ghost printed_text = text@;
            let r = printed_metadata(Ok(text));
            proof {
                assert(r@->WriteMetadata_0 == printed_text);
                if json::json_entries(document) == Map::<Seq<char>, serde_json::Value>::empty() {
                    assert(json::reads_as(r@->WriteMetadata_0, named));
                    assert(json::json_members(named) == Some(alone));
                }
            }
            r
        },
        Err(e) => printed_metadata(Err(json::error_text(&e))),
    }
}

/// Where the metadata leads once the image is written.
pub fn annotated_metadata(metadata_json: &str, png: &str) -> (r: SavePhase<String, Vec<u8>>)
    ensures
        r@ == metadata_phase(metadata_json@, png@),
        json::json_parsed(metadata_json@) matches Ok(document) ==> json::json_takes_members(
            document,
        ) ==> reads_back(r@, naming(document, png@)) && names_image(
            naming(document, png@),
            document,
            png@,
        ),
        json::json_parsed(metadata_json@) matches Ok(document) ==> json::json_is_null(document)
            ==> writes_image_name_alone(r@, png@),
        metadata_json@ == "null"@ ==> writes_image_name_alone(r@, png@),
{
    match json::parse(metadata_json) {
        Ok(document) => if json::is_null(&document) || json::is_object(&document) {
            name_image(document, png)
        } else {
            SavePhase::Failed("Metadata is not a JSON object".to_owned())
        },
        Err(e) => SavePhase::Failed(
            text::joined("Invalid JSON: ", json::error_text(&e).as_str()),
        ),
    }
}

/// Takes the attempt to file an annotation one phase further. It starts in
/// `FindHome` and ends in `Saved` or `Failed`. The metadata is looked at only
/// when the image is written.
pub fn save_annotation(
    request: &SaveRequest,
    phase: SavePhase<String, Vec<u8>>,
    event: SaveEvent<String>,
) -> (r: SavePhase<String, Vec<u8>>)
    ensures
        r@ == save_next(request@, phase@, event@),
        event is ImageWritten && (phase is WriteImage || phase is CopyCapture) ==> (
        json::json_parsed(request.metadata_json@) matches Ok(document) ==>
            json::json_takes_members(document) ==> {
            &&& r is WriteMetadata
            &&& reads_back(r@, naming(document, request.names.png@))
            &&& names_image(
                naming(document, request.names.png@),
                document,
                request.names.png@,
            )
        }),
        event is ImageWritten && (phase is WriteImage || phase is CopyCapture)
            && request.metadata_json@ == "null"@ ==> writes_image_name_alone(
            r@,
            request.names.png@,
        ),
{
    match (phase, event) {
        (SavePhase::FindHome, SaveEvent::Home(true)) => SavePhase::CreateInbox,
        (SavePhase::FindHome, SaveEvent::Home(false)) => SavePhase::Failed(
            "Could not determine home directory".to_owned(),
        ),
        (SavePhase::CreateInbox, SaveEvent::InboxCreated) => locate_image(&request.image_base64),
        (SavePhase::CreateInbox, SaveEvent::InboxFailed(e)) => SavePhase::Failed(
            text::joined("Failed to create inbox: ", e.as_str()),
        ),
        (SavePhase::FindCapture, SaveEvent::Capture(true)) => SavePhase::CopyCapture,
        (SavePhase::FindCapture, SaveEvent::Capture(false)) => SavePhase::Failed(
            "No capture file found".to_owned(),
        ),
        (SavePhase::WriteImage(_), SaveEvent::ImageWritten) => annotated_metadata(
            request.metadata_json.as_str(),
            request.names.png.as_str(),
        ),
        (SavePhase::WriteImage(_), SaveEvent::ImageFailed(e)) => SavePhase::Failed(
            text::joined("Failed to write PNG: ", e.as_str()),
        ),
        (SavePhase::CopyCapture, SaveEvent::ImageWritten) => annotated_metadata(
            request.metadata_json.as_str(),
            request.names.png.as_str(),
        ),
        (SavePhase::CopyCapture, SaveEvent::ImageFailed(e)) => SavePhase::Failed(
            text::joined("Failed to copy capture: ", e.as_str()),
        ),
        (SavePhase::WriteMetadata(_), SaveEvent::MetadataWritten) => SavePhase::Saved,
        (SavePhase::WriteMetadata(_), SaveEvent::MetadataFailed(e)) => SavePhase::Failed(
            text::joined("Failed to write metadata: ", e.as_str()),
        ),
        (phase, _) => phase,
    }
}

/// Where the image's file is: in the inbox.
pub fn image_path(names: &FileNames) -> (r: Place)
    ensures
        r@ == image_place(names.png@),
{
    inbox().join(names.png.as_str())
}

/// Where the metadata's file is: in the inbox, beside the image's.
pub fn metadata_path(names: &FileNames) -> (r: Place)
    ensures
        r@ == metadata_place(names.json@),
{
    inbox().join(names.json.as_str())
}

fn inbox() -> (r: Place)
    ensures
        r@ == places::inbox_place(),
{
    Place::at(places::Base::Home).join(places::SNAP_DIR).join(places::INBOX_DIR)
}

/// The file that `phase` writes, if it writes one.
pub fn write_target(request: &SaveRequest, phase: &SavePhase<String, Vec<u8>>) -> (r: Option<Place>)
    ensures
        match r {
            Some(place) => target_of(request@, phase@) == Some(place@),
            None => target_of(request@, phase@) is None,
        },
        phase is WriteMetadata ==> (r matches Some(place) && place@ == metadata_place(
            request.names.json@,
        )),
        phase is WriteImage || phase is CopyCapture ==> (r matches Some(place) && place@
            == image_place(request.names.png@)),
{
    match phase {
        SavePhase::WriteImage(_) => Some(image_path(&request.names)),
        SavePhase::CopyCapture => Some(image_path(&request.names)),
        SavePhase::WriteMetadata(_) => Some(metadata_path(&request.names)),
        _ => None,
    }
}

/// What the attempt is answered with, once it has ended: where the image is, or why
/// there is none.
pub fn save_result(request: &SaveRequest, phase: &SavePhase<String, Vec<u8>>) -> (r: Option<
    Result<Place, String>,
>)
    ensures
        match r {
            Some(Ok(place)) => answer_of(request@, phase@) == Some(Answer::Image(place@)),
            Some(Err(reason)) => answer_of(request@, phase@) == Some(Answer::Refusal(reason@)),
            None => answer_of(request@, phase@) is None,
        },
{
    match phase {
        SavePhase::Saved => Some(Ok(image_path(&request.names))),
        SavePhase::Failed(reason) => Some(Err(reason.clone())),
        _ => None,
    }
}

/// What is logged of an annotation that is filed.
pub fn saved_message(request: &SaveRequest) -> (r: String)
    ensures
        r@ == "Saved annotation: "@ + request.names.png@,
{
    text::joined("Saved annotation: ", request.names.png.as_str())
}

/// A capture that was handed out as Base64 is filed, where it comes back
/// unchanged, with the very bytes that were captured.
pub proof fn law_capture_comes_back_unchanged(
    request: SaveRequestView,
    encoded: Seq<char>,
    bytes: Seq<u8>,
)
    requires
        codec::decodes_as(encoded, bytes),
        request.image_base64 == Some(encoded),
    ensures
        save_next(request, SavePhase::CreateInbox, SaveEvent::InboxCreated)
            == SavePhase::<Seq<char>, Seq<u8>>::WriteImage(bytes),
{
}

/// An attempt that has ended stays as it ended.
pub proof fn law_outcome_is_final(
    request: SaveRequestView,
    phase: SavePhaseView,
    event: SaveEvent<Seq<char>>,
)
    requires
        phase is Saved || phase is Failed,
    ensures
        save_next(request, phase, event) == phase,
{
}

/// The bytes to be written as the image are those that the request encodes, and
/// the raw capture is copied only where the request holds no image.
pub proof fn law_image_is_the_requested_one(
    request: SaveRequestView,
    events: Seq<SaveEvent<Seq<char>>>,
)
    ensures
        save_run(request, events) matches SavePhase::WriteImage(bytes) ==> (
        request.image_base64 matches Some(encoded) && codec::decodes_as(encoded, bytes)),
        save_run(request, events) is FindCapture ==> request.image_base64 is None,
        save_run(request, events) is CopyCapture ==> request.image_base64 is None,
    decreases events.len(),
{
    if events.len() > 0 {
        law_image_is_the_requested_one(request, events.drop_last());
    }
}

/// An image that is not Base64 leaves nothing written.
pub proof fn law_bad_image_writes_nothing(
    request: SaveRequestView,
    events: Seq<SaveEvent<Seq<char>>>,
)
    requires
        request.image_base64 matches Some(encoded) && codec::base64_decoded(encoded) is Err,
    ensures
        ({
            let phase = save_run(request, events);
            phase is FindHome || phase is CreateInbox || phase is Failed
        }),
    decreases events.len(),
{
    if events.len() > 0 {
        law_bad_image_writes_nothing(request, events.drop_last());
    }
}

/// The metadata to be written is the document of the request with the image
/// named in it.
pub proof fn law_metadata_names_the_image(
    request: SaveRequestView,
    events: Seq<SaveEvent<Seq<char>>>,
)
    ensures
        save_run(request, events) matches SavePhase::WriteMetadata(text) ==> (
        json::json_parsed(request.metadata_json) matches Ok(document)
            && json::json_takes_members(document) && printed(naming(document, request.png))
            == Ok::<Seq<char>, Seq<char>>(text)),
    decreases events.len(),
{
    if events.len() > 0 {
        law_metadata_names_the_image(request, events.drop_last());
    }
}

/// Whatever object the metadata is, the file written for it, where it reads back,
/// names the image, has no key beside that one and the metadata's own, and holds the
/// metadata's strings.
pub proof fn law_file_keeps_the_metadata(
    document: serde_json::Value,
    png: Seq<char>,
    text: Seq<char>,
    read: serde_json::Value,
)
    requires
        names_image(naming(document, png), document, png),
        json::keeps_members(text, naming(document, png)),
        json::reads_as(text, read),
    ensures
        json::json_members(read) matches Some(members) && {
            &&& members[IMAGE_KEY@] == json::json_string(png)
            &&& members.dom() == json::json_entries(document).dom().insert(IMAGE_KEY@)
            &&& forall|key: Seq<char>| #[trigger]
                json::json_entries(document).contains_key(key) && key != IMAGE_KEY@
                    && json::json_is_plain(json::json_entries(document)[key]) ==> members[key]
                    == json::json_entries(document)[key]
        },
{
    let named = json::json_members(naming(document, png))->Some_0;
    let members = json::json_members(read)->Some_0;
    assert(named.contains_key(IMAGE_KEY@));
    assert(json::json_is_plain(named[IMAGE_KEY@]));
    assert(members.dom() =~= json::json_entries(document).dom().insert(IMAGE_KEY@));
    assert forall|key: Seq<char>| #[trigger]
        json::json_entries(document).contains_key(key) && key != IMAGE_KEY@
            && json::json_is_plain(json::json_entries(document)[key]) implies members[key]
        == json::json_entries(document)[key] by {
        assert(named.contains_key(key));
    }
}

/// Event `i` of `events` reports the image written.
pub open spec fn image_written_at(
    request: SaveRequestView,
    events: Seq<SaveEvent<Seq<char>>>,
    i: int,
) -> bool {
    &&& 0 <= i < events.len()
    &&& events[i] is ImageWritten
    &&& save_run(request, events.take(i)) is WriteImage || save_run(request, events.take(i))
        is CopyCapture
}

/// Event `i` of `events` reports the metadata written.
pub open spec fn metadata_written_at(
    request: SaveRequestView,
    events: Seq<SaveEvent<Seq<char>>>,
    i: int,
) -> bool {
    &&& 0 <= i < events.len()
    &&& events[i] is MetadataWritten
    &&& save_run(request, events.take(i)) is WriteMetadata
}

/// The metadata is looked at only once the image is written: where it is to be
/// written, or is written, the image is there.
pub proof fn law_image_comes_first(request: SaveRequestView, events: Seq<SaveEvent<Seq<char>>>)
    requires
        ({
            let phase = save_run(request, events);
            phase is WriteMetadata || phase is Saved
        }),
    ensures
        exists|i: int| image_written_at(request, events, i),
    decreases events.len(),
{
    let before = events.drop_last();
    assert(before =~= events.take(events.len() - 1));
    let phase = save_run(request, before);
    if phase is WriteMetadata || phase is Saved {
        law_image_comes_first(request, before);
        let i = choose|i: int| image_written_at(request, before, i);
        assert(events.take(i) =~= before.take(i));
        assert(image_written_at(request, events, i));
    } else {
        assert(image_written_at(request, events, events.len() - 1));
    }
}

/// An annotation is filed only with both its files: the image first, then the
/// metadata.
pub proof fn law_saved_means_both_files(
    request: SaveRequestView,
    events: Seq<SaveEvent<Seq<char>>>,
)
    requires
        save_run(request, events) is Saved,
    ensures
        exists|i: int, j: int|
            i < j && #[trigger] image_written_at(request, events, i)
                && #[trigger] metadata_written_at(request, events, j),
    decreases events.len(),
{
    let before = events.drop_last();
    let j = events.len() - 1;
    assert(before =~= events.take(j));
    if save_run(request, before) is Saved {
        law_saved_means_both_files(request, before);
        let (i, j) = choose|i: int, j: int|
            i < j && #[trigger] image_written_at(request, before, i)
                && #[trigger] metadata_written_at(request, before, j);
        assert(events.take(i) =~= before.take(i));
        assert(events.take(j) =~= before.take(j));
        assert(image_written_at(request, events, i) && metadata_written_at(request, events, j));
    } else {
        law_image_comes_first(request, before);
        let i = choose|i: int| image_written_at(request, before, i);
        assert(events.take(i) =~= before.take(i));
        assert(image_written_at(request, events, i) && metadata_written_at(request, events, j));
    }
}

/// Filing writes no file but the pair: the image's and the metadata's, both directly
/// in the inbox.
pub proof fn law_only_the_pair_is_written(request: SaveRequestView, phase: SavePhaseView)
    ensures
        target_of(request, phase) matches Some(place) ==> {
            &&& place == image_place(request.png) || place == metadata_place(request.json)
            &&& place.0 == Base::Home
            &&& place.1.drop_last() == places::inbox_place().1
        },
{
    assert(image_place(request.png).1.drop_last() =~= places::inbox_place().1);
    assert(metadata_place(request.json).1.drop_last() =~= places::inbox_place().1);
}

/// `place` is the file `name` directly in the inbox: `.snap`, then `inbox`, then the
/// file, below the home directory.
pub open spec fn lies_in_inbox(place: (Base, Seq<Seq<char>>), name: Seq<char>) -> bool {
    place.0 == Base::Home && place.1 == seq![".snap"@, "inbox"@, name]
}

/// Whatever is to be written, metadata goes to the metadata's file and an image to the
/// image's, in the inbox and under the names that the request gives them; and no other
/// phase writes a file.
pub proof fn law_each_file_has_its_own_place(
    request: SaveRequestView,
    phase: SavePhaseView,
    bytes: Seq<u8>,
    text: Seq<char>,
)
    ensures
        target_of(request, SavePhase::WriteMetadata(text)) matches Some(place) && lies_in_inbox(
            place,
            request.json,
        ),
        target_of(request, SavePhase::WriteImage(bytes)) matches Some(place) && lies_in_inbox(
            place,
            request.png,
        ),
        target_of(request, SavePhase::CopyCapture) matches Some(place) && lies_in_inbox(
            place,
            request.png,
        ),
        target_of(request, phase) is Some <==> phase is WriteMetadata || phase is WriteImage
            || phase is CopyCapture,
        lies_in_inbox(metadata_place(request.json), request.json),
        lies_in_inbox(image_place(request.png), request.png),
{
    assert(image_place(request.png).1 =~= seq![".snap"@, "inbox"@, request.png]);
    assert(metadata_place(request.json).1 =~= seq![".snap"@, "inbox"@, request.json]);
}

/// Once the image was reported written, nothing is left to be done but the metadata.
pub proof fn law_image_is_written_once(
    request: SaveRequestView,
    events: Seq<SaveEvent<Seq<char>>>,
    i: int,
    k: int,
)
    requires
        image_written_at(request, events, i),
        i < k <= events.len(),
    ensures
        ({
            let phase = save_run(request, events.take(k));
            phase is WriteMetadata || phase is Saved || phase is Failed
        }),
    decreases k,
{
    assert(events.take(k).drop_last() =~= events.take(k - 1));
    assert(events.take(k).last() == events[k - 1]);
    if k - 1 > i {
        law_image_is_written_once(request, events, i, k - 1);
    }
}

/// In every run that files an annotation under two different names, the image is
/// written to its own file and the metadata, after that, to another one; and from the
/// moment that the image is there, nothing is ever written to its file again. So both
/// files are there in the end.
pub proof fn law_image_outlasts_the_metadata(
    request: SaveRequestView,
    events: Seq<SaveEvent<Seq<char>>>,
)
    requires
        save_run(request, events) is Saved,
        request.png != request.json,
    ensures
        exists|i: int, j: int|
            {
                &&& i < j
                &&& #[trigger] image_written_at(request, events, i)
                &&& #[trigger] metadata_written_at(request, events, j)
                &&& target_of(request, save_run(request, events.take(i))) matches Some(image) && {
                    &&& lies_in_inbox(image, request.png)
                    &&& target_of(request, save_run(request, events.take(j))) matches Some(metadata)
                        && lies_in_inbox(metadata, request.json) && metadata != image
                    &&& forall|k: int|
                        i < k <= events.len() ==> #[trigger] target_of(
                            request,
                            save_run(request, events.take(k)),
                        ) != Some(image)
                }
            },
{
    law_saved_means_both_files(request, events);
    let (i, j) = choose|i: int, j: int|
        i < j && #[trigger] image_written_at(request, events, i) && #[trigger] metadata_written_at(
            request,
            events,
            j,
        );
    let (image_phase, metadata_phase) = (
        save_run(request, events.take(i)),
        save_run(request, events.take(j)),
    );
    let bytes = image_phase->WriteImage_0;
    law_each_file_has_its_own_place(request, image_phase, bytes, metadata_phase->WriteMetadata_0);
    let image = target_of(request, image_phase)->Some_0;
    let metadata = target_of(request, metadata_phase)->Some_0;
    assert(lies_in_inbox(image, request.png));
    assert(lies_in_inbox(metadata, request.json));
    assert(image.1[2] != metadata.1[2]);
    assert forall|k: int| i < k <= events.len() implies #[trigger] target_of(
        request,
        save_run(request, events.take(k)),
    ) != Some(image) by {
        law_image_is_written_once(request, events, i, k);
        let phase = save_run(request, events.take(k));
        law_each_file_has_its_own_place(request, phase, bytes, phase->WriteMetadata_0);
        assert(seq![".snap"@, "inbox"@, request.json][2] != image.1[2]);
    }
    assert(image_written_at(request, events, i) && metadata_written_at(request, events, j));
}

/// What is named after a moment is filed under two different names and at two
/// different places, whatever the moment is; where the image comes from makes no
/// difference to its place.
pub proof fn law_named_files_lie_apart(
    request: SaveRequestView,
    stamp: Seq<char>,
    bytes: Seq<u8>,
    text: Seq<char>,
)
    requires
        request.png == png_name(stamp),
        request.json == json_name(stamp),
    ensures
        request.png != request.json,
        target_of(request, SavePhase::WriteMetadata(text)) != target_of(
            request,
            SavePhase::WriteImage(bytes),
        ),
        target_of(request, SavePhase::WriteImage(bytes)) == target_of(
            request,
            SavePhase::CopyCapture,
        ),
{
    law_file_names_pair_up(stamp);
    law_each_file_has_its_own_place(request, SavePhase::Saved, bytes, text);
    let metadata = target_of(request, SavePhase::WriteMetadata(text))->Some_0;
    let image = target_of(request, SavePhase::WriteImage(bytes))->Some_0;
    assert(metadata.1[2] != image.1[2]);
}

/// Whatever the stamp is, both names are `snap-`, the stamp with a dash for every dot
/// and otherwise character for character, and their ending.
pub proof fn law_file_names_hold_the_stamp(stamp: Seq<char>)
    ensures
        png_name(stamp).len() == stamp.len() + 9,
        json_name(stamp).len() == stamp.len() + 10,
        png_name(stamp).take(5) == "snap-"@,
        json_name(stamp).take(5) == "snap-"@,
        png_name(stamp).skip(stamp.len() + 5int) == ".png"@,
        json_name(stamp).skip(stamp.len() + 5int) == ".json"@,
        forall|i: int|
            0 <= i < stamp.len() ==> #[trigger] png_name(stamp)[i + 5] == (if stamp[i] == '.' {
                '-'
            } else {
                stamp[i]
            }),
        forall|i: int|
            0 <= i < stamp.len() ==> #[trigger] json_name(stamp)[i + 5] == (if stamp[i] == '.' {
                '-'
            } else {
                stamp[i]
            }),
{
    reveal_strlit("snap-");
    reveal_strlit(".png");
    reveal_strlit(".json");
    assert(png_name(stamp).take(5) =~= "snap-"@);
    assert(json_name(stamp).take(5) =~= "snap-"@);
    assert(png_name(stamp).skip(stamp.len() + 5int) =~= ".png"@);
    assert(json_name(stamp).skip(stamp.len() + 5int) =~= ".json"@);
}

/// A request whose image is Base64 and whose metadata can name it goes through, step
/// by step, whatever the image and the metadata are: the bytes are written as the
/// image, and what is printed of the metadata as the metadata. Without an image the
/// raw capture is copied instead, where there is one.
pub proof fn law_good_request_goes_through(
    request: SaveRequestView,
    bytes: Seq<u8>,
    document: serde_json::Value,
    text: Seq<char>,
)
    requires
        request.image_base64 matches Some(encoded) ==> codec::base64_decoded(encoded) == Ok::<
            Seq<u8>,
            base64::DecodeError,
        >(bytes),
        json::json_parsed(request.metadata_json) == Ok::<serde_json::Value, serde_json::Error>(
            document,
        ),
        json::json_members(document) is Some || json::json_is_null(document),
        json::json_pretty(
            json::json_with_member(document, "image_filename"@, json::json_string(request.png)),
        ) == Ok::<Seq<char>, serde_json::Error>(text),
    ensures
        save_next(request, SavePhase::FindHome, SaveEvent::Home(true)) is CreateInbox,
        request.image_base64 is Some ==> save_next(
            request,
            SavePhase::CreateInbox,
            SaveEvent::InboxCreated,
        ) == SavePhase::<Seq<char>, Seq<u8>>::WriteImage(bytes),
        request.image_base64 is None ==> save_next(
            request,
            SavePhase::CreateInbox,
            SaveEvent::InboxCreated,
        ) is FindCapture,
        save_next(request, SavePhase::FindCapture, SaveEvent::Capture(true)) is CopyCapture,
        save_next(request, SavePhase::WriteImage(bytes), SaveEvent::ImageWritten) == SavePhase::<
            Seq<char>,
            Seq<u8>,
        >::WriteMetadata(text),
        save_next(request, SavePhase::CopyCapture, SaveEvent::ImageWritten) == SavePhase::<
            Seq<char>,
            Seq<u8>,
        >::WriteMetadata(text),
        save_next(request, SavePhase::WriteMetadata(text), SaveEvent::MetadataWritten) is Saved,
{
}

/// A request goes no further than the first thing that fails, and is refused with
/// word of what it was and then of what was reported, character for character.
pub proof fn law_failure_is_told_in_full(
    request: SaveRequestView,
    bytes: Seq<u8>,
    text: Seq<char>,
    e: Seq<char>,
)
    ensures
        save_next(request, SavePhase::FindHome, SaveEvent::Home(false)) == SavePhase::<
            Seq<char>,
            Seq<u8>,
        >::Failed("Could not determine home directory"@),
        save_next(request, SavePhase::FindCapture, SaveEvent::Capture(false)) == SavePhase::<
            Seq<char>,
            Seq<u8>,
        >::Failed("No capture file found"@),
        save_next(request, SavePhase::CreateInbox, SaveEvent::InboxFailed(e)) matches
            SavePhase::Failed(reason) && text::leads_to(reason, "Failed to create inbox: "@, e),
        save_next(request, SavePhase::WriteImage(bytes), SaveEvent::ImageFailed(e)) matches
            SavePhase::Failed(reason) && text::leads_to(reason, "Failed to write PNG: "@, e),
        save_next(request, SavePhase::CopyCapture, SaveEvent::ImageFailed(e)) matches
            SavePhase::Failed(reason) && text::leads_to(reason, "Failed to copy capture: "@, e),
        save_next(request, SavePhase::WriteMetadata(text), SaveEvent::MetadataFailed(e)) matches
            SavePhase::Failed(reason) && text::leads_to(reason, "Failed to write metadata: "@, e),
        decoded_phase(Err(e)) matches SavePhase::Failed(reason) && text::leads_to(
            reason,
            "Base64 decode failed: "@,
            e,
        ),
        printed_phase(Err(e)) matches SavePhase::Failed(reason) && text::leads_to(
            reason,
            "JSON serialize: "@,
            e,
        ),
        decoded_phase(Ok(bytes)) == SavePhase::<Seq<char>, Seq<u8>>::WriteImage(bytes),
        printed_phase(Ok(text)) == SavePhase::<Seq<char>, Seq<u8>>::WriteMetadata(text),
{
    text::lemma_leads_to("Failed to create inbox: "@, e);
    text::lemma_leads_to("Failed to write PNG: "@, e);
    text::lemma_leads_to("Failed to copy capture: "@, e);
    text::lemma_leads_to("Failed to write metadata: "@, e);
    text::lemma_leads_to("Base64 decode failed: "@, e);
    text::lemma_leads_to("JSON serialize: "@, e);
}

/// An image that is not Base64, and metadata that is not JSON or neither an object nor
/// `null`, are refused with what the parser says of them.
pub proof fn law_bad_input_is_told_in_full(
    request: SaveRequestView,
    image: SavePhaseView,
    not_base64: base64::DecodeError,
    not_json: serde_json::Error,
)
    requires
        image is WriteImage || image is CopyCapture,
    ensures
        (request.image_base64 matches Some(encoded) && codec::base64_decoded(encoded) == Err::<
            Seq<u8>,
            base64::DecodeError,
        >(not_base64)) ==> (save_next(request, SavePhase::CreateInbox, SaveEvent::InboxCreated)
            matches SavePhase::Failed(reason) && text::leads_to(
            reason,
            "Base64 decode failed: "@,
            codec::base64_error_text(not_base64),
        )),
        json::json_parsed(request.metadata_json) == Err::<serde_json::Value, serde_json::Error>(
            not_json,
        ) ==> (save_next(request, image, SaveEvent::ImageWritten) matches SavePhase::Failed(reason)
            && text::leads_to(reason, "Invalid JSON: "@, json::json_error_text(not_json))),
        (json::json_parsed(request.metadata_json) matches Ok(document) && json::json_members(
            document,
        ) is None && !json::json_is_null(document)) ==> save_next(
            request,
            image,
            SaveEvent::ImageWritten,
        ) == SavePhase::<Seq<char>, Seq<u8>>::Failed("Metadata is not a JSON object"@),
{
    text::lemma_leads_to("Base64 decode failed: "@, codec::base64_error_text(not_base64));
    text::lemma_leads_to("Invalid JSON: "@, json::json_error_text(not_json));
}

/// A document that names its image is written as it is printed, and one that cannot be
/// printed is refused with word of why.
pub proof fn law_named_document_is_written(
    document: serde_json::Value,
    png: Seq<char>,
    text: Seq<char>,
    e: serde_json::Error,
)
    ensures
        ({
            let named = json::json_with_member(
                document,
                "image_filename"@,
                json::json_string(png),
            );
            let phase = printed_phase(printed(naming(document, png)));
            &&& json::json_pretty(named) == Ok::<Seq<char>, serde_json::Error>(text) ==> phase
                == SavePhase::<Seq<char>, Seq<u8>>::WriteMetadata(text)
            &&& json::json_pretty(named) == Err::<Seq<char>, serde_json::Error>(e) ==> (
            phase matches SavePhase::Failed(reason) && text::leads_to(
                reason,
                "JSON serialize: "@,
                json::json_error_text(e),
            ))
        }),
{
    text::lemma_leads_to("JSON serialize: "@, json::json_error_text(e));
}

/// How the image came to be written has no influence on what becomes of the metadata,
/// nor has anything of the request but the metadata and the image's name.
pub proof fn law_metadata_is_judged_alike(
    a: SaveRequestView,
    x: SavePhaseView,
    b: SaveRequestView,
    y: SavePhaseView,
)
    requires
        a.metadata_json == b.metadata_json,
        a.png == b.png,
        x is WriteImage || x is CopyCapture,
        y is WriteImage || y is CopyCapture,
    ensures
        save_next(a, x, SaveEvent::ImageWritten) == save_next(b, y, SaveEvent::ImageWritten),
        save_next(a, x, SaveEvent::ImageWritten) == metadata_phase(b.metadata_json, b.png),
        save_next(a, SavePhase::CreateInbox, SaveEvent::InboxCreated) == image_phase(
            a.image_base64,
        ),
{
}

/// `event` reports on what `phase` asks for.
pub open spec fn answers(phase: SavePhaseView, event: SaveEvent<Seq<char>>) -> bool {
    ||| phase is FindHome && event is Home
    ||| phase is CreateInbox && (event is InboxCreated || event is InboxFailed)
    ||| phase is FindCapture && event is Capture
    ||| (phase is WriteImage || phase is CopyCapture) && (event is ImageWritten
        || event is ImageFailed)
    ||| phase is WriteMetadata && (event is MetadataWritten || event is MetadataFailed)
}

/// A report on something that was not asked for changes nothing, and a report on what
/// was asked for never leaves the attempt where it was.
pub proof fn law_only_answers_move_the_attempt(
    request: SaveRequestView,
    phase: SavePhaseView,
    event: SaveEvent<Seq<char>>,
)
    ensures
        save_next(request, phase, event) != phase <==> answers(phase, event),
{
}

/// Every end is answered for, and nothing else is: an annotation that is filed with
/// the place of its image in the inbox, and one that is not with the very reason.
pub proof fn law_every_end_is_answered(
    request: SaveRequestView,
    phase: SavePhaseView,
    reason: Seq<char>,
)
    ensures
        answer_of(request, SavePhase::Saved) matches Some(Answer::Image(place)) && lies_in_inbox(
            place,
            request.png,
        ),
        answer_of(request, SavePhase::Failed(reason)) == Some(Answer::Refusal(reason)),
        answer_of(request, phase) is Some <==> phase is Saved || phase is Failed,
{
    assert(image_place(request.png).1 =~= seq![".snap"@, "inbox"@, request.png]);
}

/// Metadata that holds nothing but strings and `null` is in its file as it was, with
/// the image named.
pub proof fn law_plain_metadata_reads_back(phase: SavePhaseView, named: serde_json::Value)
    requires
        reads_back(phase, named),
        json::json_members(named) matches Some(members) && forall|key: Seq<char>| #[trigger]
            members.contains_key(key) ==> json::json_is_null(members[key]) || exists|
                t: Seq<char>,
            |
                members[key] == json::json_string(t),
    ensures
        phase matches SavePhase::WriteMetadata(text) && json::json_parsed(text) == Ok::<
            serde_json::Value,
            serde_json::Error,
        >(named),
{
}

/// Metadata that is written with the image's name alone reads back as an object with
/// that one member.
pub proof fn law_image_name_stands_alone(phase: SavePhaseView, png: Seq<char>)
    requires
        writes_image_name_alone(phase, png),
    ensures
        phase matches SavePhase::WriteMetadata(text) && json::json_parsed(text) matches Ok(document)
            && json::json_members(document) matches Some(members) && members.dom()
            == Set::<Seq<char>>::empty().insert("image_filename"@) && members["image_filename"@]
            == json::json_string(png),
{
    let text = phase->WriteMetadata_0;
    let document = choose|document: serde_json::Value| #[trigger]
        json::reads_as(text, document) && json::json_members(document) == Some(image_entry(png));
    assert(json::json_parsed(text) == Ok::<serde_json::Value, serde_json::Error>(document));
    assert(image_entry(png).dom() =~= Set::<Seq<char>>::empty().insert("image_filename"@));
}

/// A request, a phase and an event are seen as they are, with all that they carry.
pub proof fn law_views_are_faithful(
    request: SaveRequest,
    phase: SavePhase<String, Vec<u8>>,
    event: SaveEvent<String>,
)
    ensures
        request@.metadata_json == request.metadata_json@,
        request@.png == request.names.png@,
        request@.json == request.names.json@,
        request.image_base64 is None <==> request@.image_base64 is None,
        request.image_base64 matches Some(encoded) ==> request@.image_base64 == Some(encoded@),
        phase is FindHome <==> phase@ is FindHome,
        phase is CreateInbox <==> phase@ is CreateInbox,
        phase is FindCapture <==> phase@ is FindCapture,
        phase is CopyCapture <==> phase@ is CopyCapture,
        phase is Saved <==> phase@ is Saved,
        phase matches SavePhase::WriteImage(bytes) ==> phase@ is WriteImage
            && phase@->WriteImage_0 == bytes@,
        phase matches SavePhase::WriteMetadata(text) ==> phase@ is WriteMetadata
            && phase@->WriteMetadata_0 == text@,
        phase matches SavePhase::Failed(reason) ==> phase@ is Failed && phase@->Failed_0
            == reason@,
        event is InboxCreated <==> event@ is InboxCreated,
        event is ImageWritten <==> event@ is ImageWritten,
        event is MetadataWritten <==> event@ is MetadataWritten,
        event matches SaveEvent::Home(found) ==> event@ == SaveEvent::<Seq<char>>::Home(found),
        event matches SaveEvent::Capture(found) ==> event@ == SaveEvent::<Seq<char>>::Capture(
            found,
        ),
        event matches SaveEvent::InboxFailed(e) ==> event@ is InboxFailed
            && event@->InboxFailed_0 == e@,
        event matches SaveEvent::ImageFailed(e) ==> event@ is ImageFailed
            && event@->ImageFailed_0 == e@,
        event matches SaveEvent::MetadataFailed(e) ==> event@ is MetadataFailed
            && event@->MetadataFailed_0 == e@,
{
}

/// An annotation is answered for with the place of the very image that was written,
/// and only once it is filed.
pub proof fn law_answer_is_the_image(
    request: SaveRequestView,
    events: Seq<SaveEvent<Seq<char>>>,
    place: (Base, Seq<Seq<char>>),
)
    requires
        answer_of(request, save_run(request, events)) == Some(Answer::Image(place)),
    ensures
        exists|i: int| #[trigger]
            image_written_at(request, events, i) && target_of(
                request,
                save_run(request, events.take(i)),
            ) == Some(place),
{
    law_image_comes_first(request, events);
    let i = choose|i: int| image_written_at(request, events, i);
    assert(target_of(request, save_run(request, events.take(i))) == Some(place));
}

/// An annotation's two files are called the same up to the ending, which is
/// marked by the only dot.
pub proof fn law_file_names_pair_up(stamp: Seq<char>)
    ensures
        png_name(stamp) == file_stem(stamp) + ".png"@,
        json_name(stamp) == file_stem(stamp) + ".json"@,
        png_name(stamp) != json_name(stamp),
        forall|i: int|
            0 <= i < png_name(stamp).len() ==> (#[trigger] png_name(stamp)[i] == '.' <==> i
                == file_stem(stamp).len()),
        forall|i: int|
            0 <= i < json_name(stamp).len() ==> (#[trigger] json_name(stamp)[i] == '.' <==> i
                == file_stem(stamp).len()),
{
    reveal_strlit("snap-");
    reveal_strlit(".png");
    reveal_strlit(".json");
    assert(png_name(stamp).len() != json_name(stamp).len());
    assert forall|i: int| 0 <= i < file_stem(stamp).len() implies file_stem(stamp)[i] != '.' by {
        if i >= 5 {
            assert(file_stem(stamp)[i] == text::replaced(stamp, '.', '-')[i - 5]);
        }
    }
}

/// The image's file is called after the date and the time of day, in 28
/// characters, and the metadata's in 29.
pub proof fn law_file_names_have_one_form(m: Moment, stamp: Seq<char>)
    requires
        clock::is_plain(m),
        clock::is_file_stamp(m, stamp, '.'),
    ensures
        clock::is_file_stamp(m, text::replaced(stamp, '.', '-'), '-'),
        png_name(stamp) == "snap-"@ + text::replaced(stamp, '.', '-') + ".png"@,
        json_name(stamp) == "snap-"@ + text::replaced(stamp, '.', '-') + ".json"@,
        png_name(stamp).len() == 28,
        json_name(stamp).len() == 29,
{
    reveal_strlit("snap-");
    reveal_strlit(".png");
    reveal_strlit(".json");
    clock::law_file_stamp_has_one_form(m, stamp, stamp, '.');
    clock::lemma_point_replaced(m, stamp, '-');
}

/// The files of an annotation that is filed a millisecond or more after another
/// sort behind that one's, so none of them overwrites one of that one's.
pub proof fn law_later_files_sort_later(m: Moment, a: Seq<char>, n: Moment, b: Seq<char>)
    requires
        clock::is_plain(m),
        clock::is_plain(n),
        m.millis() < n.millis(),
        clock::is_file_stamp(m, a, '.'),
        clock::is_file_stamp(n, b, '.'),
    ensures
        text::precedes(png_name(a), png_name(b)),
        text::precedes(json_name(a), json_name(b)),
        png_name(a) != png_name(b),
        json_name(a) != json_name(b),
        png_name(a) != json_name(b),
        json_name(a) != png_name(b),
{
    law_file_names_have_one_form(m, a);
    law_file_names_have_one_form(n, b);
    let (ra, rb) = (text::replaced(a, '.', '-'), text::replaced(b, '.', '-'));
    clock::law_later_stamps_sort_later(m, ra, n, rb, '-');
    text::lemma_precedes_behind("snap-"@, ra, rb);
    text::lemma_precedes_extend(file_stem(a), file_stem(b), ".png"@, ".png"@);
    text::lemma_precedes_extend(file_stem(a), file_stem(b), ".json"@, ".json"@);
}

} // verus!
