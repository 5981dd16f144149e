//! Data model of the export core: one structured message record with its
//! decoded content parts, edit history, reactions and threaded replies, as
//! the archive reader and payload decoder collaborators hand them over.
use vstd::prelude::*;

verus! {

/// A formatting-effect span inside the message's raw text, in character
/// positions.
#[derive(Default)]
pub struct TextRange {
    pub start: usize,
    pub end: usize,
}

/// What happened to one content part of an edited message.
pub enum EditStatus {
    /// The part is unchanged: nothing extra is rendered.
    Original,
    /// The part was edited: the full chronological chain is rendered.
    Edited,
    /// The part was unsent: a retraction notice is rendered.
    Unsent,
}

/// One event of an edit chain: the raw timestamp, its local display text,
/// the elapsed time since the event before it, and the text the part had
/// after this edit.
pub struct EditEvent {
    pub date: i64,
    /// Local display text of `date`; see `resolve_times`.
    pub date_text: String,
    /// Readable elapsed time since the previous event, when there is one
    /// and the stamps allow it; see `resolve_times`.
    pub elapsed_text: Option<String>,
    pub text: String,
}

/// The edit chain of one content part.
pub struct EditedPart {
    pub status: EditStatus,
    pub edit_history: Vec<EditEvent>,
}

/// Edit history of a message, indexed by content-part position.
pub struct EditedInfo {
    pub parts: Vec<EditedPart>,
}

/// One attachment of a message, as resolved by the attachment manager: the
/// display path when the manager succeeded, a fallback name when it did not.
#[derive(Default)]
pub struct AttachmentInfo {
    pub is_sticker: bool,
    pub sticker_effect: Option<String>,
    pub resolved_path: Option<String>,
    pub fallback_name: String,
}

/// Decoded url-preview balloon.
#[derive(Default)]
pub struct UrlBalloon {
    pub url: Option<String>,
    pub title: Option<String>,
    pub summary: Option<String>,
}

/// Decoded music balloon.
#[derive(Default)]
pub struct MusicBalloon {
    pub track_name: Option<String>,
    pub album: Option<String>,
    pub artist: Option<String>,
    pub url: Option<String>,
}

/// Decoded collaboration-invite balloon.
#[derive(Default)]
pub struct CollaborationBalloon {
    pub app_name: Option<String>,
    pub bundle_id: Option<String>,
    pub title: Option<String>,
    pub url: Option<String>,
}

/// Decoded app-store listing balloon.
#[derive(Default)]
pub struct AppStoreBalloon {
    pub app_name: Option<String>,
    pub description: Option<String>,
    pub platform: Option<String>,
    pub genre: Option<String>,
    pub url: Option<String>,
}

/// Decoded shared-placemark balloon.
#[derive(Default)]
pub struct PlacemarkBalloon {
    pub place_name: Option<String>,
    pub url: Option<String>,
    pub name: Option<String>,
    pub address: Option<String>,
    pub state: Option<String>,
    pub city: Option<String>,
    pub iso_country_code: Option<String>,
    pub postal_code: Option<String>,
    pub country: Option<String>,
    pub street: Option<String>,
    pub sub_administrative_area: Option<String>,
    pub sub_locality: Option<String>,
}

/// Decoded hand-written message: the ASCII rendering and, when the
/// attachment manager copied the image, its path.
#[derive(Default)]
pub struct HandwritingBalloon {
    pub ascii: String,
    pub file_path: Option<String>,
}

/// Decoded generic app-card payload.
#[derive(Default)]
pub struct AppPayload {
    pub app_name: Option<String>,
    pub ldtext: Option<String>,
    pub title: Option<String>,
    pub subtitle: Option<String>,
    pub caption: Option<String>,
    pub subcaption: Option<String>,
    pub trailing_caption: Option<String>,
    pub trailing_subcaption: Option<String>,
    pub url: Option<String>,
}

/// Which check-in date a check-in balloon carries.
pub enum CheckInKind {
    /// Before a manual check-in: the estimated end time.
    Estimated,
    /// An expired check-in: the trigger time.
    Expired,
    /// An accepted check-in: the send date.
    Accepted,
}

/// The date of a check-in balloon: raw seconds and the local display text.
pub struct CheckInTiming {
    pub kind: CheckInKind,
    pub seconds: i64,
    pub date_text: String,
}

/// One typed, already-decoded app balloon.
pub enum TypedBalloon {
    Url(UrlBalloon),
    Music(MusicBalloon),
    Collaboration(CollaborationBalloon),
    AppStore(AppStoreBalloon),
    Placemark(PlacemarkBalloon),
    Handwriting(HandwritingBalloon),
    ApplePay(AppPayload),
    Fitness(AppPayload),
    Slideshow(AppPayload),
    CheckIn { caption: Option<String>, timing: Option<CheckInTiming> },
    FindMy(AppPayload),
    Generic { bundle_id: String, payload: AppPayload },
}

/// Why a balloon payload could not be decoded.
pub enum PayloadFault {
    /// The payload was missing entirely.
    NoPayload,
    /// The payload was present but malformed; carries the decoder's reason.
    Malformed(String),
}

impl PayloadFault {
    /// The diagnostic text rendered inline for this fault.
    pub open spec fn text_spec(&self) -> Seq<char> {
        match self {
            PayloadFault::NoPayload => "Unable to acquire payload data!"@,
            PayloadFault::Malformed(reason) => reason@,
        }
    }

    /// The diagnostic text rendered inline for this fault.
    pub fn text(&self) -> (r: String)
        ensures
            r@ == self.text_spec(),
    {
        match self {
            PayloadFault::NoPayload => {
                let r = String::from_str("Unable to acquire payload data!");
                r
            },
            PayloadFault::Malformed(reason) => reason.clone(),
        }
    }
}

/// One content part of a message body.
pub enum ContentPart {
    /// Plain text, with its formatting-effect spans.
    Text { ranges: Vec<TextRange> },
    /// An attachment slot, consumed from the message's attachment list.
    Attachment,
    /// An app balloon, as the payload decoder left it.
    AppBalloon { decoded: Result<TypedBalloon, PayloadFault> },
    /// A part whose content was retracted.
    Retracted,
}

/// A full-screen send effect.
pub enum ScreenEffect {
    Confetti,
    Echo,
    Fireworks,
    Balloons,
    Heart,
    Lasers,
    ShootingStar,
    Sparkles,
    Spotlight,
}

/// A bubble-level send effect.
pub enum BubbleEffect {
    Slam,
    Loud,
    Gentle,
    InvisibleInk,
}

/// An expressive send effect attached to a message.
pub enum Expressive {
    Screen(ScreenEffect),
    Bubble(BubbleEffect),
    /// An effect identifier this tool does not know; rendered as-is.
    Unknown(String),
}

/// A group-event announcement.
pub enum Announcement {
    NameChange(String),
    PhotoChange,
    Unknown(i32),
    FullyUnsent,
}

/// What kind of reaction was sent.
pub enum ReactionKind {
    /// A standard tapback with its display label; `added` is false when the
    /// reaction was later removed, and removed reactions render nothing.
    Tapback { label: String, added: bool },
    /// A sticker placed on the part, with its resolved attachment when the
    /// archive still has one.
    Sticker { attachment: Option<AttachmentInfo> },
}

/// One reaction to a content part.
pub struct Reaction {
    pub kind: ReactionKind,
    /// The resolved display identity of who reacted.
    pub actor: String,
}

/// The reactions attached to one content part.
#[derive(Default)]
pub struct ReactionGroup {
    pub part_index: usize,
    pub reactions: Vec<Reaction>,
}

/// One threaded reply, attached to a content part of its parent.
pub struct Reply {
    pub part_index: usize,
    pub message: RawMessage,
}

/// One structured message record, read-only input of the renderer. All
/// collaborator lookups are already resolved into plain values: the sender
/// identity, attachment display paths, decoded balloons, reactions and the
/// reply messages themselves.
#[derive(Default)]
pub struct RawMessage {
    pub rowid: i32,
    pub guid: String,
    pub text: Option<String>,
    pub service: Option<String>,
    pub handle_id: Option<i32>,
    pub destination_caller_id: Option<String>,
    pub subject: Option<String>,
    /// Resolved display identity of the sender.
    pub sender: String,
    pub date: i64,
    pub date_read: i64,
    pub date_delivered: i64,
    pub date_edited: i64,
    /// Local display text of `date`; see `resolve_times`.
    pub date_text: String,
    /// Readable elapsed time until the message was read (or, for the
    /// archive owner's own messages, delivered), when the stamps give one;
    /// see `resolve_times`.
    pub read_after_text: Option<String>,
    /// Readable elapsed time from sending to unsending, when the stamps
    /// give one; see `resolve_times`.
    pub unsent_after_text: Option<String>,
    pub is_from_me: bool,
    pub is_read: bool,
    pub is_deleted: bool,
    pub is_edited: bool,
    pub is_reply: bool,
    /// True when this message is itself a reaction; such messages are skipped
    /// when replies are rendered.
    pub is_tapback: bool,
    pub is_shareplay: bool,
    pub started_sharing_location: bool,
    pub stopped_sharing_location: bool,
    pub chat_id: Option<i32>,
    /// The deduplicated conversation id, when the conversation resolves to
    /// one.
    pub deduped_chat_id: Option<i32>,
    /// The resolved display name of the conversation, when it resolves.
    pub thread_name: Option<String>,
    pub thread_originator_guid: Option<String>,
    pub num_attachments: i32,
    pub num_replies: i32,
    pub expressive: Option<Expressive>,
    pub parts: Vec<ContentPart>,
    pub attachments: Vec<AttachmentInfo>,
    pub edited: Option<EditedInfo>,
    pub tapbacks: Vec<ReactionGroup>,
    pub replies: Vec<Reply>,
}

} // verus!
