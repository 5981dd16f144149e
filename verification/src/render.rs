//! The message renderer: turns one structured message record into its
//! transcript entry — a timestamp and sender header, the body parts with
//! their edit chains, reactions and threaded replies, and the trailers.
use vstd::prelude::*;

use crate::balloon::{
    format_app_store_spec, format_apple_pay_spec, format_check_in_spec,
    format_collaboration_spec, format_find_my_spec, format_fitness_spec,
    format_generic_app_spec, format_handwriting_spec, format_music_spec, format_placemark_spec,
    format_slideshow_spec, format_url_spec,
};
use crate::model::{
    Announcement, AttachmentInfo, BubbleEffect, ContentPart, EditEvent, EditStatus, EditedInfo,
    Expressive, PayloadFault, RawMessage, Reaction, ReactionGroup, ReactionKind, ScreenEffect,
    TextRange, TypedBalloon,
};
use crate::txt::{
    add_line, line_spec, replace_all, replace_spec, spaces, spaces_spec, starts_with_spec,
    str_starts_with,
};

verus! {

/// Rendering options: the configured name of the archive owner and the
/// timestamp offset of the archive's epoch.
pub struct Renderer {
    pub custom_name: Option<String>,
    pub offset: i64,
}

/// The fixed label of an expressive send effect.
pub open spec fn expressive_label_spec(e: Expressive) -> Seq<char> {
    match e {
        Expressive::Screen(effect) => match effect {
            ScreenEffect::Confetti => "Sent with Confetti"@,
            ScreenEffect::Echo => "Sent with Echo"@,
            ScreenEffect::Fireworks => "Sent with Fireworks"@,
            ScreenEffect::Balloons => "Sent with Balloons"@,
            ScreenEffect::Heart => "Sent with Heart"@,
            ScreenEffect::Lasers => "Sent with Lasers"@,
            ScreenEffect::ShootingStar => "Sent with Shooting Star"@,
            ScreenEffect::Sparkles => "Sent with Sparkles"@,
            ScreenEffect::Spotlight => "Sent with Spotlight"@,
        },
        Expressive::Bubble(effect) => match effect {
            BubbleEffect::Slam => "Sent with Slam"@,
            BubbleEffect::Loud => "Sent with Loud"@,
            BubbleEffect::Gentle => "Sent with Gentle"@,
            BubbleEffect::InvisibleInk => "Sent with Invisible Ink"@,
        },
        Expressive::Unknown(effect) => effect@,
    }
}

impl Renderer {
    /// Render the fixed label of an expressive send effect.
    pub fn format_expressive(&self, e: &Expressive) -> (r: String)
        ensures
            r@ == expressive_label_spec(*e),
    {
        match e {
            Expressive::Screen(effect) => match effect {
                ScreenEffect::Confetti => String::from_str("Sent with Confetti"),
                ScreenEffect::Echo => String::from_str("Sent with Echo"),
                ScreenEffect::Fireworks => String::from_str("Sent with Fireworks"),
                ScreenEffect::Balloons => String::from_str("Sent with Balloons"),
                ScreenEffect::Heart => String::from_str("Sent with Heart"),
                ScreenEffect::Lasers => String::from_str("Sent with Lasers"),
                ScreenEffect::ShootingStar => String::from_str("Sent with Shooting Star"),
                ScreenEffect::Sparkles => String::from_str("Sent with Sparkles"),
                ScreenEffect::Spotlight => String::from_str("Sent with Spotlight"),
            },
            Expressive::Bubble(effect) => match effect {
                BubbleEffect::Slam => String::from_str("Sent with Slam"),
                BubbleEffect::Loud => String::from_str("Sent with Loud"),
                BubbleEffect::Gentle => String::from_str("Sent with Gentle"),
                BubbleEffect::InvisibleInk => String::from_str("Sent with Invisible Ink"),
            },
            Expressive::Unknown(effect) => effect.clone(),
        }
    }
}

/// One rendered sticker line: its effect when known, who placed it, and
/// the sticker's path or fallback name.
pub open spec fn sticker_line_spec(att: AttachmentInfo, who: Seq<char>) -> Seq<char> {
    match att.resolved_path {
        Some(p) => match att.sticker_effect {
            Some(e) => e@ + " Sticker from "@ + who + ": "@ + p@,
            None => "Sticker from "@ + who + ": "@ + p@,
        },
        None => "Sticker from "@ + who + ": "@ + att.fallback_name@,
    }
}

/// One rendered reaction: a tapback's label and actor — or nothing at all
/// when the tapback was removed again — and a sticker reaction's sticker
/// line with its actor.
pub open spec fn format_tapback_spec(r: Reaction) -> Seq<char> {
    match r.kind {
        ReactionKind::Tapback { label, added } => if !added {
            Seq::<char>::empty()
        } else {
            label@ + " by "@ + r.actor@
        },
        ReactionKind::Sticker { attachment } => match attachment {
            Some(att) => sticker_line_spec(att, r.actor@) + " from "@ + r.actor@,
            None => "Sticker from "@ + r.actor@ + " not found!"@,
        },
    }
}

impl Renderer {
    /// Render one sticker line for whoever placed it.
    fn sticker_line(&self, att: &AttachmentInfo, who: &str) -> (out: String)
        ensures
            out@ == sticker_line_spec(*att, who@),
    {
        let mut out = String::new();
        match &att.resolved_path {
            Some(path) => {
                match &att.sticker_effect {
                    Some(e) => {
                        out.append(e.as_str());
                        out.append(" Sticker from ");
                    },
                    None => {
                        out.append("Sticker from ");
                    },
                }
                out.append(who);
                out.append(": ");
                out.append(path.as_str());
            },
            None => {
                out.append("Sticker from ");
                out.append(who);
                out.append(": ");
                out.append(att.fallback_name.as_str());
            },
        }
        proof {
            assert(out@ =~= sticker_line_spec(*att, who@));
        }
        out
    }

    /// Render one reaction. A removed tapback renders nothing; a sticker
    /// reaction renders its sticker line.
    pub fn format_tapback(&self, r: &Reaction) -> (out: String)
        ensures
            out@ == format_tapback_spec(*r),
    {
        match &r.kind {
            ReactionKind::Tapback { label, added } => {
                if !*added {
                    return String::new();
                }
                let mut out = label.clone();
                out.append(" by ");
                out.append(r.actor.as_str());
                proof {
                    assert(out@ =~= format_tapback_spec(*r));
                }
                out
            },
            ReactionKind::Sticker { attachment } => {
                match attachment {
                    Some(att) => {
                        let mut out = self.sticker_line(att, r.actor.as_str());
                        out.append(" from ");
                        out.append(r.actor.as_str());
                        proof {
                            assert(out@ =~= format_tapback_spec(*r));
                        }
                        out
                    },
                    None => {
                        let mut out = String::from_str("Sticker from ");
                        out.append(r.actor.as_str());
                        out.append(" not found!");
                        proof {
                            assert(out@ =~= format_tapback_spec(*r));
                        }
                        out
                    },
                }
            },
        }
    }

    /// The display path of an attachment, or its bare name when the
    /// attachment manager could not resolve it.
    pub fn format_attachment(&self, attachment: &AttachmentInfo) -> (r: Result<String, String>)
        ensures
            match r {
                Ok(p) => attachment.resolved_path == Some(p),
                Err(n) => attachment.resolved_path is None && n == attachment.fallback_name,
            },
    {
        match &attachment.resolved_path {
            Some(p) => Ok(p.clone()),
            None => Err(attachment.fallback_name.clone()),
        }
    }
}

/// One rendered sticker attachment: its sticker line for the message's
/// sender.
pub open spec fn format_sticker_spec(att: AttachmentInfo, m: RawMessage) -> Seq<char> {
    sticker_line_spec(att, m.sender@)
}

impl Renderer {
    /// Render a sticker attachment, prefixed with who sent it.
    pub fn format_sticker(&self, sticker: &AttachmentInfo, m: &RawMessage) -> (out: String)
        ensures
            out@ == format_sticker_spec(*sticker, *m),
    {
        self.sticker_line(sticker, m.sender.as_str())
    }
}

/// Who a read receipt names: "them" for the archive owner's own messages,
/// the configured name (or "you") otherwise.
pub open spec fn read_by_who(m: RawMessage, cfg: Renderer) -> Seq<char> {
    if m.is_from_me {
        "them"@
    } else {
        match cfg.custom_name {
            Some(n) => n@,
            None => "you"@,
        }
    }
}

/// The header time line: the message's local date text, with a read
/// receipt appended when the hydrated elapsed time is there and not empty.
pub open spec fn get_time_spec(m: RawMessage, cfg: Renderer) -> Seq<char> {
    match m.read_after_text {
        Some(t) => if t@.len() > 0 {
            m.date_text@ + " (Read by "@ + read_by_who(m, cfg) + " after "@ + t@ + ")"@
        } else {
            m.date_text@
        },
        None => m.date_text@,
    }
}

impl Renderer {
    /// Render the header time line of a message.
    pub fn get_time(&self, m: &RawMessage) -> (out: String)
        ensures
            out@ == get_time_spec(*m, *self),
    {
        let mut out = m.date_text.clone();
        if let Some(time) = &m.read_after_text {
            if !time.as_str().is_empty() {
                out.append(" (Read by ");
                if m.is_from_me {
                    out.append("them");
                } else {
                    match &self.custom_name {
                        Some(n) => out.append(n.as_str()),
                        None => out.append("you"),
                    }
                }
                out.append(" after ");
                out.append(time.as_str());
                out.append(")");
            }
        }
        proof {
            assert(out@ =~= get_time_spec(*m, *self));
        }
        out
    }

    /// The fixed note for a SharePlay message.
    pub fn format_shareplay(&self) -> (r: String)
        ensures
            r@ == "SharePlay Message\nEnded"@,
    {
        String::from_str("SharePlay Message\nEnded")
    }
}

/// The note for a location-sharing event.
pub open spec fn shared_location_spec(m: RawMessage) -> Seq<char> {
    if m.started_sharing_location {
        "Started sharing location!"@
    } else if m.stopped_sharing_location {
        "Stopped sharing location!"@
    } else {
        "Shared location!"@
    }
}

impl Renderer {
    /// Render the note for a location-sharing event.
    pub fn format_shared_location(&self, m: &RawMessage) -> (r: String)
        ensures
            r@ == shared_location_spec(*m),
    {
        if m.started_sharing_location {
            String::from_str("Started sharing location!")
        } else if m.stopped_sharing_location {
            String::from_str("Stopped sharing location!")
        } else {
            String::from_str("Shared location!")
        }
    }
}

/// Who an unsent-part notice names: the configured name (or "You") for the
/// archive owner's own messages, "They" otherwise.
pub open spec fn unsent_who(m: RawMessage, cfg: Renderer) -> Seq<char> {
    if m.is_from_me {
        match cfg.custom_name {
            Some(n) => n@,
            None => "You"@,
        }
    } else {
        "They"@
    }
}

/// The retraction notice of an unsent part: with the hydrated elapsed time
/// since send when it is there.
pub open spec fn unsent_notice_spec(m: RawMessage, cfg: Renderer) -> Seq<char> {
    match m.unsent_after_text {
        Some(d) => unsent_who(m, cfg) + " unsent this message part "@ + d@ + " after sending!"@,
        None => unsent_who(m, cfg) + " unsent this message part!"@,
    }
}

/// The rendered edit chain from event `i` on: the first event carries its
/// absolute local timestamp, every later one its hydrated elapsed time
/// since the event before it ("Edited 3 minutes later: "); an elapsed time
/// that reduces to an empty readable string is suppressed. Each event's
/// text follows as one indented line.
pub open spec fn edited_chain_spec(
    events: Seq<EditEvent>,
    i: int,
    indent: Seq<char>,
    acc: Seq<char>,
) -> Seq<char>
    decreases events.len() - i,
{
    if i < 0 || i >= events.len() {
        acc
    } else {
        let ev = events[i];
        let acc1 = if i == 0 {
            acc + ev.date_text@ + " "@
        } else {
            match ev.elapsed_text {
                Some(d) => if d@.len() > 0 {
                    acc + indent + "Edited "@ + d@ + " later: "@
                } else {
                    acc
                },
                None => acc,
            }
        };
        let acc2 = line_spec(acc1, ev.text@, indent);
        edited_chain_spec(events, i + 1, indent, acc2)
    }
}

/// What the edit history renders for content part `idx`: the full chain for
/// an edited part, the retraction notice for an unsent one, nothing for an
/// untouched one.
pub open spec fn format_edited_spec(
    m: RawMessage,
    info: EditedInfo,
    idx: int,
    indent: Seq<char>,
    cfg: Renderer,
) -> Option<Seq<char>> {
    if 0 <= idx < info.parts.len() {
        match info.parts[idx].status {
            EditStatus::Edited => Some(
                edited_chain_spec(info.parts[idx].edit_history@, 0, indent, Seq::empty()),
            ),
            EditStatus::Unsent => Some(unsent_notice_spec(m, cfg)),
            EditStatus::Original => None,
        }
    } else {
        None
    }
}

impl Renderer {
    /// Render the edit history of content part `idx`, if it has one that
    /// renders anything.
    pub fn format_edited(
        &self,
        m: &RawMessage,
        edited_message: &EditedInfo,
        message_part_idx: usize,
        indent: &str,
    ) -> (r: Option<String>)
        ensures
            match r {
                Some(s) => format_edited_spec(
                    *m,
                    *edited_message,
                    message_part_idx as int,
                    indent@,
                    *self,
                ) == Some(s@),
                None => format_edited_spec(
                    *m,
                    *edited_message,
                    message_part_idx as int,
                    indent@,
                    *self,
                ) is None,
            },
    {
        if message_part_idx >= edited_message.parts.len() {
            return None;
        }
        let part = &edited_message.parts[message_part_idx];
        match part.status {
            EditStatus::Edited => {
                let mut out = String::new();
                let mut i: usize = 0;
                let ghost events = part.edit_history@;
                while i < part.edit_history.len()
                    invariant
                        i <= events.len(),
                        events == part.edit_history@,
                        edited_chain_spec(events, 0, indent@, Seq::empty()) == edited_chain_spec(
                            events,
                            i as int,
                            indent@,
                            out@,
                        ),
                    decreases events.len() - i,
                {
                    let event = &part.edit_history[i];
                    if i == 0 {
                        out.append(event.date_text.as_str());
                        out.append(" ");
                    } else {
                        if let Some(diff) = &event.elapsed_text {
                            if !diff.as_str().is_empty() {
                                out.append(indent);
                                out.append("Edited ");
                                out.append(diff.as_str());
                                out.append(" later: ");
                            }
                        }
                    }
                    crate::txt::add_line(&mut out, event.text.as_str(), indent);
                    i = i + 1;
                }
                Some(out)
            },
            EditStatus::Unsent => {
                let mut out = String::new();
                if m.is_from_me {
                    match &self.custom_name {
                        Some(n) => out.append(n.as_str()),
                        None => out.append("You"),
                    }
                } else {
                    out.append("They");
                }
                match &m.unsent_after_text {
                    Some(diff) => {
                        out.append(" unsent this message part ");
                        out.append(diff.as_str());
                        out.append(" after sending!");
                    },
                    None => {
                        out.append(" unsent this message part!");
                    },
                }
                proof {
                    assert(out@ =~= unsent_notice_spec(*m, *self));
                }
                Some(out)
            },
            EditStatus::Original => None,
        }
    }
}

/// The rendered announcement of a group event, two trailing blank lines
/// included.
pub open spec fn announcement_spec(m: RawMessage, a: Option<Announcement>, cfg: Renderer) -> Seq<
    char,
> {
    match a {
        Some(announcement) => {
            let who = if m.sender@ == "Me"@ {
                match cfg.custom_name {
                    Some(n) => n@,
                    None => "You"@,
                }
            } else {
                m.sender@
            };
            match announcement {
                Announcement::NameChange(name) => m.date_text@ + " "@ + who
                    + " renamed the conversation to "@ + name@ + "\n\n"@,
                Announcement::PhotoChange => m.date_text@ + " "@ + who
                    + " changed the group photo.\n\n"@,
                Announcement::Unknown(num) => m.date_text@ + " "@ + who
                    + " performed unknown action "@ + crate::txt::int_text_spec(num as int)
                    + ".\n\n"@,
                Announcement::FullyUnsent => m.date_text@ + " "@ + who + " unsent a message!\n\n"@,
            }
        },
        None => "Unable to format announcement!\n\n"@,
    }
}

impl Renderer {
    /// Render a group-event announcement.
    pub fn format_announcement(&self, m: &RawMessage, a: &Option<Announcement>) -> (out: String)
        ensures
            out@ == announcement_spec(*m, *a, *self),
    {
        let announcement = match a {
            Some(announcement) => announcement,
            None => {
                return String::from_str("Unable to format announcement!\n\n");
            },
        };
        let mut who = m.sender.clone();
        let me = String::from_str("Me");
        if who == me {
            who = match &self.custom_name {
                Some(n) => n.clone(),
                None => String::from_str("You"),
            };
        }
        let mut out = m.date_text.clone();
        out.append(" ");
        out.append(who.as_str());
        match announcement {
            Announcement::NameChange(name) => {
                out.append(" renamed the conversation to ");
                out.append(name.as_str());
                out.append("\n\n");
            },
            Announcement::PhotoChange => {
                out.append(" changed the group photo.\n\n");
            },
            Announcement::Unknown(num) => {
                out.append(" performed unknown action ");
                let digits = crate::txt::int_text(*num as i64);
                out.append(digits.as_str());
                out.append(".\n\n");
            },
            Announcement::FullyUnsent => {
                out.append(" unsent a message!\n\n");
            },
        }
        proof {
            assert(out@ =~= announcement_spec(*m, *a, *self));
        }
        out
    }
}

/// The placeholder token that fitness messages carry in place of the
/// receiver's name.
pub open spec fn fitness_token() -> Seq<char> {
    "$(kIMTranscriptPluginBreadcrumbTextReceiverIdentifier)"@
}

/// True when content part `idx` has an edit chain to render in place of its
/// plain text.
pub open spec fn is_part_edited_spec(m: RawMessage, idx: int) -> bool {
    match m.edited {
        Some(info) => 0 <= idx < info.parts@.len() && info.parts@[idx].status is Edited,
        None => false,
    }
}

/// The concatenation of the formatting-effect spans of a text part, from
/// span `i` on; spans that do not fit the text contribute nothing.
pub open spec fn join_ranges_spec(
    text: Seq<char>,
    ranges: Seq<TextRange>,
    i: int,
    acc: Seq<char>,
) -> Seq<char>
    decreases ranges.len() - i,
{
    if i < 0 || i >= ranges.len() {
        acc
    } else {
        let r = ranges[i];
        let acc2 = if r.start <= r.end && r.end <= text.len() {
            acc + text.subrange(r.start as int, r.end as int)
        } else {
            acc
        };
        join_ranges_spec(text, ranges, i + 1, acc2)
    }
}

/// The body text of a plain text part: its spans joined (or the whole text
/// when no span fits), with the fitness placeholder replaced by the "you"
/// term when the text begins with it.
pub open spec fn text_part_body_spec(ranges: Seq<TextRange>, text: Seq<char>) -> Seq<char> {
    let joined = join_ranges_spec(text, ranges, 0, Seq::empty());
    let shown = if joined.len() == 0 {
        text
    } else {
        joined
    };
    if starts_with_spec(shown, fitness_token()) {
        replace_spec(shown, fitness_token(), "You"@)
    } else {
        shown
    }
}

/// What a text part adds to the transcript: its edit chain when the part was
/// edited, its body text otherwise.
pub open spec fn text_part_spec(
    acc: Seq<char>,
    m: RawMessage,
    ranges: Seq<TextRange>,
    idx: int,
    indent: Seq<char>,
    cfg: Renderer,
) -> Seq<char> {
    match m.text {
        Some(text) => if is_part_edited_spec(m, idx) {
            match m.edited {
                Some(info) => match format_edited_spec(m, info, idx, indent, cfg) {
                    Some(e) => line_spec(acc, e, indent),
                    None => acc,
                },
                None => acc,
            }
        } else {
            line_spec(acc, text_part_body_spec(ranges, text@), indent)
        },
        None => acc,
    }
}

/// What an attachment part adds, and the attachment slot that the next
/// attachment part will consume: a sticker or a failed resolution occupies a
/// line without consuming the slot; a missing attachment record renders a
/// fixed notice.
pub open spec fn attachment_part_spec(
    acc: Seq<char>,
    m: RawMessage,
    att_idx: int,
    indent: Seq<char>,
) -> (Seq<char>, int) {
    if 0 <= att_idx < m.attachments@.len() {
        let att = m.attachments@[att_idx];
        if att.is_sticker {
            (line_spec(acc, format_sticker_spec(att, m), indent), att_idx)
        } else {
            match att.resolved_path {
                Some(p) => (line_spec(acc, p@, indent), att_idx + 1),
                None => (line_spec(acc, att.fallback_name@, indent), att_idx),
            }
        }
    } else {
        (line_spec(acc, "Attachment missing!"@, indent), att_idx)
    }
}

/// The rendered fragment of one typed balloon.
pub open spec fn balloon_text_spec(m: RawMessage, b: TypedBalloon, indent: Seq<char>) -> Seq<
    char,
> {
    match b {
        TypedBalloon::Url(x) => format_url_spec(m, x, indent),
        TypedBalloon::Music(x) => format_music_spec(x, indent),
        TypedBalloon::Collaboration(x) => format_collaboration_spec(x, indent),
        TypedBalloon::AppStore(x) => format_app_store_spec(x, indent),
        TypedBalloon::Placemark(x) => format_placemark_spec(x, indent),
        TypedBalloon::Handwriting(x) => format_handwriting_spec(x, indent),
        TypedBalloon::ApplePay(p) => format_apple_pay_spec(p, indent),
        TypedBalloon::Fitness(p) => format_fitness_spec(p, indent),
        TypedBalloon::Slideshow(p) => format_slideshow_spec(p, indent),
        TypedBalloon::CheckIn { caption, timing } => format_check_in_spec(caption, timing, indent),
        TypedBalloon::FindMy(p) => format_find_my_spec(p, indent),
        TypedBalloon::Generic { bundle_id, payload } => format_generic_app_spec(
            payload,
            bundle_id@,
            indent,
        ),
    }
}

/// What an app-balloon part adds: the balloon's fragment, or an inline
/// diagnostic when its payload could not be decoded.
pub open spec fn app_part_spec(
    acc: Seq<char>,
    m: RawMessage,
    decoded: Result<TypedBalloon, PayloadFault>,
    indent: Seq<char>,
) -> Seq<char> {
    match decoded {
        Ok(b) => line_spec(acc, balloon_text_spec(m, b, indent), indent),
        Err(f) => line_spec(acc, "Unable to format app message: "@ + f.text_spec(), indent),
    }
}

/// What a retracted part adds: its retraction notice, when the edit history
/// has one.
pub open spec fn retracted_part_spec(
    acc: Seq<char>,
    m: RawMessage,
    idx: int,
    indent: Seq<char>,
    cfg: Renderer,
) -> Seq<char> {
    match m.edited {
        Some(info) => match format_edited_spec(m, info, idx, indent, cfg) {
            Some(e) => line_spec(acc, e, indent),
            None => acc,
        },
        None => acc,
    }
}

/// The reactions attached to content part `idx`: the first group with that
/// part index, searched from group `j` on.
pub open spec fn find_tapbacks(groups: Seq<ReactionGroup>, j: int, idx: int) -> Option<
    Seq<Reaction>,
>
    decreases groups.len() - j,
{
    if j < 0 || j >= groups.len() {
        None
    } else if groups[j].part_index as int == idx {
        Some(groups[j].reactions@)
    } else {
        find_tapbacks(groups, j + 1, idx)
    }
}

/// The rendered reaction lines from reaction `i` on; removed reactions
/// contribute nothing.
pub open spec fn tapback_lines_spec(
    rs: Seq<Reaction>,
    i: int,
    indent: Seq<char>,
    acc: Seq<char>,
) -> Seq<char>
    decreases rs.len() - i,
{
    if i < 0 || i >= rs.len() {
        acc
    } else {
        let t = format_tapback_spec(rs[i]);
        let acc2 = if t.len() > 0 {
            line_spec(acc, t, indent)
        } else {
            acc
        };
        tapback_lines_spec(rs, i + 1, indent, acc2)
    }
}

/// The "Tapbacks:" sub-block of content part `idx`: nothing at all when no
/// reaction of the part renders anything.
pub open spec fn tapback_block_spec(
    acc: Seq<char>,
    m: RawMessage,
    idx: int,
    indent: Seq<char>,
) -> Seq<char> {
    match find_tapbacks(m.tapbacks@, 0, idx) {
        Some(rs) => {
            let body = tapback_lines_spec(rs, 0, indent, Seq::empty());
            if body.len() > 0 {
                line_spec(line_spec(acc, "Tapbacks:"@, indent), body, indent)
            } else {
                acc
            }
        },
        None => acc,
    }
}

/// The full transcript entry of one message: header, body parts with their
/// per-part annotations, trailers. Replies render recursively, at the fixed
/// reply indentation; only the top-level (non-indented) entry carries the
/// reply note and the single trailing blank line.
pub open spec fn render_spec(m: RawMessage, cfg: Renderer, indent_size: int) -> Seq<char>
    decreases m, 3int, 0int,
{
    let indent = spaces_spec(indent_size);
    let s1 = line_spec(Seq::empty(), get_time_spec(m, cfg), indent);
    let s2 = line_spec(s1, m.sender@, indent);
    let s3 = if m.is_deleted {
        line_spec(s2, "This message was deleted from the conversation!"@, indent)
    } else {
        s2
    };
    let s4 = match m.subject {
        Some(subj) => line_spec(s3, subj@, indent),
        None => s3,
    };
    let s5 = if m.is_shareplay {
        line_spec(s4, "SharePlay Message\nEnded"@, indent)
    } else {
        s4
    };
    let s6 = if m.started_sharing_location || m.stopped_sharing_location {
        line_spec(s5, shared_location_spec(m), indent)
    } else {
        s5
    };
    let folded = parts_fold_spec(m, cfg, indent, 0, 0, s6);
    let s7 = folded.0;
    let s8 = if m.is_reply && indent.len() == 0 {
        line_spec(s7, "This message responded to an earlier message."@, indent)
    } else {
        s7
    };
    if indent.len() == 0 {
        s8 + "\n"@
    } else {
        s8
    }
}

/// The body parts from part `i` on, threading the attachment slot.
pub open spec fn parts_fold_spec(
    m: RawMessage,
    cfg: Renderer,
    indent: Seq<char>,
    i: int,
    att_idx: int,
    acc: Seq<char>,
) -> (Seq<char>, int)
    decreases m, 2int, m.parts@.len() - i,
{
    if i < 0 || i >= m.parts@.len() {
        (acc, att_idx)
    } else {
        let stepped = part_step_spec(m, cfg, indent, i, att_idx, acc);
        parts_fold_spec(m, cfg, indent, i + 1, stepped.1, stepped.0)
    }
}

/// One body part and its per-part annotations: the part's own content, then
/// the expressive-effect label, the reactions sub-block and the threaded
/// replies of this part.
pub open spec fn part_step_spec(
    m: RawMessage,
    cfg: Renderer,
    indent: Seq<char>,
    idx: int,
    att_idx: int,
    acc: Seq<char>,
) -> (Seq<char>, int)
    decreases m, 1int, 0int,
{
    let content = match m.parts@[idx] {
        ContentPart::Text { ranges } => (text_part_spec(acc, m, ranges@, idx, indent, cfg), att_idx),
        ContentPart::Attachment => attachment_part_spec(acc, m, att_idx, indent),
        ContentPart::AppBalloon { decoded } => (app_part_spec(acc, m, decoded, indent), att_idx),
        ContentPart::Retracted => (retracted_part_spec(acc, m, idx, indent, cfg), att_idx),
    };
    let acc2 = match m.expressive {
        Some(e) => line_spec(content.0, expressive_label_spec(e), indent),
        None => content.0,
    };
    let acc3 = tapback_block_spec(acc2, m, idx, indent);
    let acc4 = replies_fold_spec(m, cfg, indent, idx, 0, acc3);
    (acc4, content.1)
}

/// The threaded replies of content part `idx`, from reply `j` on; replies
/// that are themselves reactions are skipped.
pub open spec fn replies_fold_spec(
    m: RawMessage,
    cfg: Renderer,
    indent: Seq<char>,
    idx: int,
    j: int,
    acc: Seq<char>,
) -> Seq<char>
    decreases m, 0int, m.replies@.len() - j,
{
    if j < 0 || j >= m.replies@.len() {
        acc
    } else {
        let rep = m.replies@[j];
        let acc2 = if rep.part_index as int == idx && !rep.message.is_tapback {
            line_spec(acc, render_spec(rep.message, cfg, 4), indent)
        } else {
            acc
        };
        replies_fold_spec(m, cfg, indent, idx, j + 1, acc2)
    }
}

impl Renderer {
    /// Dispatch one decoded app balloon to its formatter; a decode fault
    /// comes back as the diagnostic text the caller renders inline.
    pub fn format_app(
        &self,
        m: &RawMessage,
        decoded: &Result<TypedBalloon, PayloadFault>,
        indent: &str,
    ) -> (r: Result<String, String>)
        ensures
            match r {
                Ok(s) => match *decoded {
                    Ok(b) => s@ == balloon_text_spec(*m, b, indent@),
                    Err(_) => false,
                },
                Err(t) => match *decoded {
                    Ok(_) => false,
                    Err(f) => t@ == f.text_spec(),
                },
            },
    {
        match decoded {
            Ok(b) => Ok(
                match b {
                    TypedBalloon::Url(x) => self.format_url(m, x, indent),
                    TypedBalloon::Music(x) => self.format_music(x, indent),
                    TypedBalloon::Collaboration(x) => self.format_collaboration(x, indent),
                    TypedBalloon::AppStore(x) => self.format_app_store(x, indent),
                    TypedBalloon::Placemark(x) => self.format_placemark(x, indent),
                    TypedBalloon::Handwriting(x) => self.format_handwriting(x, indent),
                    TypedBalloon::ApplePay(p) => self.format_apple_pay(p, indent),
                    TypedBalloon::Fitness(p) => self.format_fitness(p, indent),
                    TypedBalloon::Slideshow(p) => self.format_slideshow(p, indent),
                    TypedBalloon::CheckIn { caption, timing } => self.format_check_in(
                        caption,
                        timing,
                        indent,
                    ),
                    TypedBalloon::FindMy(p) => self.format_find_my(p, indent),
                    TypedBalloon::Generic { bundle_id, payload } => self.format_generic_app(
                        payload,
                        bundle_id.as_str(),
                        indent,
                    ),
                },
            ),
            Err(f) => Err(f.text()),
        }
    }

    /// The effect-adjusted text of one formatting span. A plain transcript
    /// has no way to show text effects, so the text passes through
    /// unchanged.
    pub fn format_attributed(&self, text: &str) -> (r: String)
        ensures
            r@ == text@,
    {
        text.to_owned()
    }

    /// True when content part `idx` has an edit chain to render in place of
    /// its plain text.
    fn is_part_edited(&self, m: &RawMessage, idx: usize) -> (r: bool)
        ensures
            r == is_part_edited_spec(*m, idx as int),
    {
        match &m.edited {
            Some(info) => idx < info.parts.len() && matches!(
                info.parts[idx].status,
                EditStatus::Edited,
            ),
            None => false,
        }
    }

    /// Render one message into its transcript entry. Body parts render in
    /// order with their per-part annotations; replies render recursively at
    /// the fixed reply indentation; only the top-level (non-indented) entry
    /// carries the reply note and the single trailing blank line.
    pub fn format_message(&self, message: &RawMessage, indent_size: usize) -> (out: String)
        ensures
            out@ == render_spec(*message, *self, indent_size as int),
        decreases *message,
    {
        let indent = spaces(indent_size);
        let mut out = String::new();

        let time = self.get_time(message);
        add_line(&mut out, time.as_str(), indent.as_str());
        add_line(&mut out, message.sender.as_str(), indent.as_str());
        if message.is_deleted {
            add_line(
                &mut out,
                "This message was deleted from the conversation!",
                indent.as_str(),
            );
        }
        if let Some(subject) = &message.subject {
            add_line(&mut out, subject.as_str(), indent.as_str());
        }
        if message.is_shareplay {
            let note = self.format_shareplay();
            add_line(&mut out, note.as_str(), indent.as_str());
        }
        if message.started_sharing_location || message.stopped_sharing_location {
            let note = self.format_shared_location(message);
            add_line(&mut out, note.as_str(), indent.as_str());
        }

        let ghost m = *message;
        let ghost iv = indent@;
        let ghost base = out@;
        let mut attachment_index: usize = 0;
        let mut idx: usize = 0;
        while idx < message.parts.len()
            invariant
                idx <= m.parts@.len(),
                attachment_index <= m.attachments@.len(),
                m == *message,
                iv == indent@,
                parts_fold_spec(m, *self, iv, 0, 0, base) == parts_fold_spec(
                    m,
                    *self,
                    iv,
                    idx as int,
                    attachment_index as int,
                    out@,
                ),
            decreases m.parts@.len() - idx,
        {
            let ghost acc0 = out@;
            let ghost att0 = attachment_index as int;
            match &message.parts[idx] {
                ContentPart::Text { ranges } => {
                    if let Some(text) = &message.text {
                        if self.is_part_edited(message, idx) {
                            if let Some(info) = &message.edited {
                                if let Some(edited) = self.format_edited(
                                    message,
                                    info,
                                    idx,
                                    indent.as_str(),
                                ) {
                                    add_line(&mut out, edited.as_str(), indent.as_str());
                                }
                            }
                        } else {
                            let tlen = text.as_str().unicode_len();
                            let mut formatted_text = String::new();
                            let mut k: usize = 0;
                            while k < ranges.len()
                                invariant
                                    k <= ranges@.len(),
                                    tlen == text@.len(),
                                    join_ranges_spec(text@, ranges@, 0, Seq::empty())
                                        == join_ranges_spec(
                                        text@,
                                        ranges@,
                                        k as int,
                                        formatted_text@,
                                    ),
                                decreases ranges@.len() - k,
                            {
                                let r = &ranges[k];
                                if r.start <= r.end && r.end <= tlen {
                                    let piece = self.format_attributed(
                                        text.as_str().substring_char(r.start, r.end),
                                    );
                                    formatted_text.append(piece.as_str());
                                }
                                k = k + 1;
                            }
                            if formatted_text.as_str().is_empty() {
                                formatted_text = text.clone();
                            }
                            proof {
                                reveal_strlit(
                                    "$(kIMTranscriptPluginBreadcrumbTextReceiverIdentifier)",
                                );
                            }
                            if str_starts_with(
                                formatted_text.as_str(),
                                "$(kIMTranscriptPluginBreadcrumbTextReceiverIdentifier)",
                            ) {
                                let replaced = replace_all(
                                    formatted_text.as_str(),
                                    "$(kIMTranscriptPluginBreadcrumbTextReceiverIdentifier)",
                                    "You",
                                );
                                add_line(&mut out, replaced.as_str(), indent.as_str());
                            } else {
                                add_line(&mut out, formatted_text.as_str(), indent.as_str());
                            }
                        }
                    }
                    proof {
                        assert(out@ == text_part_spec(
                            acc0,
                            m,
                            m.parts@[idx as int]->Text_ranges@,
                            idx as int,
                            iv,
                            *self,
                        ));
                    }
                },
                ContentPart::Attachment => {
                    if attachment_index < message.attachments.len() {
                        let attachment = &message.attachments[attachment_index];
                        if attachment.is_sticker {
                            let result = self.format_sticker(attachment, message);
                            add_line(&mut out, result.as_str(), indent.as_str());
                        } else {
                            match self.format_attachment(attachment) {
                                Ok(result) => {
                                    attachment_index = attachment_index + 1;
                                    add_line(&mut out, result.as_str(), indent.as_str());
                                },
                                Err(result) => {
                                    add_line(&mut out, result.as_str(), indent.as_str());
                                },
                            }
                        }
                    } else {
                        add_line(&mut out, "Attachment missing!", indent.as_str());
                    }
                },
                ContentPart::AppBalloon { decoded } => {
                    match self.format_app(message, decoded, indent.as_str()) {
                        Ok(ok_bubble) => {
                            add_line(&mut out, ok_bubble.as_str(), indent.as_str());
                        },
                        Err(why) => {
                            let mut diagnostic = String::from_str(
                                "Unable to format app message: ",
                            );
                            diagnostic.append(why.as_str());
                            add_line(&mut out, diagnostic.as_str(), indent.as_str());
                        },
                    }
                },
                ContentPart::Retracted => {
                    if let Some(info) = &message.edited {
                        if let Some(edited) = self.format_edited(
                            message,
                            info,
                            idx,
                            indent.as_str(),
                        ) {
                            add_line(&mut out, edited.as_str(), indent.as_str());
                        }
                    }
                },
            }
            let ghost acc1 = out@;
            proof {
                assert((acc1, attachment_index as int) == (match m.parts@[idx as int] {
                    ContentPart::Text { ranges } => (
                        text_part_spec(acc0, m, ranges@, idx as int, iv, *self),
                        att0,
                    ),
                    ContentPart::Attachment => attachment_part_spec(acc0, m, att0, iv),
                    ContentPart::AppBalloon { decoded } => (
                        app_part_spec(acc0, m, decoded, iv),
                        att0,
                    ),
                    ContentPart::Retracted => (
                        retracted_part_spec(acc0, m, idx as int, iv, *self),
                        att0,
                    ),
                }));
            }

            if let Some(e) = &message.expressive {
                let label = self.format_expressive(e);
                add_line(&mut out, label.as_str(), indent.as_str());
            }
            let ghost acc2 = out@;

            let mut gi: usize = 0;
            while gi < message.tapbacks.len() && message.tapbacks[gi].part_index != idx
                invariant
                    gi <= m.tapbacks@.len(),
                    m == *message,
                    find_tapbacks(m.tapbacks@, 0, idx as int) == find_tapbacks(
                        m.tapbacks@,
                        gi as int,
                        idx as int,
                    ),
                decreases m.tapbacks@.len() - gi,
            {
                gi = gi + 1;
            }
            if gi < message.tapbacks.len() {
                let reactions = &message.tapbacks[gi].reactions;
                let mut formatted_tapbacks = String::new();
                let mut k: usize = 0;
                while k < reactions.len()
                    invariant
                        k <= reactions@.len(),
                        tapback_lines_spec(reactions@, 0, iv, Seq::empty())
                            == tapback_lines_spec(
                            reactions@,
                            k as int,
                            iv,
                            formatted_tapbacks@,
                        ),
                        iv == indent@,
                    decreases reactions@.len() - k,
                {
                    let formatted = self.format_tapback(&reactions[k]);
                    if !formatted.as_str().is_empty() {
                        add_line(&mut formatted_tapbacks, formatted.as_str(), indent.as_str());
                    }
                    k = k + 1;
                }
                if !formatted_tapbacks.as_str().is_empty() {
                    add_line(&mut out, "Tapbacks:", indent.as_str());
                    add_line(&mut out, formatted_tapbacks.as_str(), indent.as_str());
                }
                proof {
                    assert(out@ == tapback_block_spec(acc2, m, idx as int, iv));
                }
            }
            let ghost acc3 = out@;

            let mut j: usize = 0;
            while j < message.replies.len()
                invariant
                    j <= m.replies@.len(),
                    m == *message,
                    iv == indent@,
                    replies_fold_spec(m, *self, iv, idx as int, 0, acc3) == replies_fold_spec(
                        m,
                        *self,
                        iv,
                        idx as int,
                        j as int,
                        out@,
                    ),
                decreases m.replies@.len() - j,
            {
                let reply = &message.replies[j];
                if reply.part_index == idx && !reply.message.is_tapback {
                    proof {
                        assert(decreases_to!(m => m.replies));
                        assert(decreases_to!(m.replies => m.replies@));
                        assert(decreases_to!(m.replies@ => m.replies@[j as int]));
                        assert(decreases_to!(m.replies@[j as int] => m.replies@[
                            j as int].message));
                    }
                    let rendered = self.format_message(&reply.message, 4);
                    add_line(&mut out, rendered.as_str(), indent.as_str());
                }
                j = j + 1;
            }

            proof {
                assert((out@, attachment_index as int) == part_step_spec(
                    m,
                    *self,
                    iv,
                    idx as int,
                    att0,
                    acc0,
                ));
            }
            idx = idx + 1;
        }

        if message.is_reply && indent.as_str().is_empty() {
            add_line(
                &mut out,
                "This message responded to an earlier message.",
                indent.as_str(),
            );
        }
        if indent.as_str().is_empty() {
            out.append("\n");
        }
        proof {
            assert(out@ =~= render_spec(*message, *self, indent_size as int));
        }
        out
    }
}

/// A tapback with `added` false renders nothing at all.
pub proof fn lemma_removed_reaction_renders_nothing(r: Reaction)
    requires
        r.kind matches ReactionKind::Tapback { label: _, added: false },
    ensures
        format_tapback_spec(r) == Seq::<char>::empty(),
{
}

/// Helper for `lemma_removed_reaction_invisible`, generalized over the
/// position the lines are rendered from and the accumulated text.
proof fn lemma_removed_reaction_invisible_from(
    rs: Seq<Reaction>,
    k: int,
    i: int,
    indent: Seq<char>,
    acc: Seq<char>,
)
    requires
        0 <= i,
        0 <= k < rs.len(),
        rs[k].kind matches ReactionKind::Tapback { label: _, added: false },
    ensures
        tapback_lines_spec(rs, i, indent, acc) == tapback_lines_spec(
            rs.remove(k),
            if i <= k {
                i
            } else {
                i - 1
            },
            indent,
            acc,
        ),
    decreases rs.len() - i + 1,
{
    if i >= rs.len() {
        assert(rs.remove(k).len() == rs.len() - 1);
    } else if i == k {
        assert(format_tapback_spec(rs[i]).len() == 0);
        lemma_removed_reaction_invisible_from(rs, k, i + 1, indent, acc);
    } else if i < k {
        assert(rs.remove(k)[i] == rs[i]);
        let t = format_tapback_spec(rs[i]);
        let acc2 = if t.len() > 0 {
            line_spec(acc, t, indent)
        } else {
            acc
        };
        lemma_removed_reaction_invisible_from(rs, k, i + 1, indent, acc2);
    } else {
        assert(rs.remove(k)[i - 1] == rs[i]);
        let t = format_tapback_spec(rs[i]);
        let acc2 = if t.len() > 0 {
            line_spec(acc, t, indent)
        } else {
            acc
        };
        lemma_removed_reaction_invisible_from(rs, k, i + 1, indent, acc2);
    }
}

/// A removed reaction leaves the owning part's rendered reaction lines
/// exactly as if it were not there at all — its actor never appears in the
/// tapback block.
pub proof fn lemma_removed_reaction_invisible(rs: Seq<Reaction>, k: int, indent: Seq<char>)
    requires
        0 <= k < rs.len(),
        rs[k].kind matches ReactionKind::Tapback { label: _, added: false },
    ensures
        tapback_lines_spec(rs, 0, indent, Seq::empty()) == tapback_lines_spec(
            rs.remove(k),
            0,
            indent,
            Seq::empty(),
        ),
{
    lemma_removed_reaction_invisible_from(rs, k, 0, indent, Seq::empty());
}

/// A message whose body is a single plain text part — no edit history, no
/// reactions, no replies, no effects and no notices — renders as exactly
/// four lines: the header time line, the sender line, the body line, and
/// the trailing blank line of the top-level entry.
pub proof fn lemma_render_plain_text(m: RawMessage, cfg: Renderer)
    requires
        m.parts@.len() == 1,
        m.parts@[0] is Text,
        m.parts@[0]->Text_ranges@.len() == 0,
        m.text is Some,
        m.text.unwrap()@.len() > 0,
        !starts_with_spec(m.text.unwrap()@, fitness_token()),
        m.edited is None,
        m.tapbacks@.len() == 0,
        m.replies@.len() == 0,
        m.expressive is None,
        !m.is_deleted,
        m.subject is None,
        !m.is_shareplay,
        !m.started_sharing_location,
        !m.stopped_sharing_location,
        !m.is_reply,
        get_time_spec(m, cfg).len() > 0,
        m.sender@.len() > 0,
    ensures
        render_spec(m, cfg, 0) == get_time_spec(m, cfg) + seq!['\n'] + m.sender@ + seq!['\n']
            + m.text.unwrap()@ + seq!['\n'] + seq!['\n'],
{
    let indent = spaces_spec(0);
    let nl = seq!['\n'];
    assert(indent.len() == 0);
    let time = get_time_spec(m, cfg);
    let s1 = line_spec(Seq::empty(), time, indent);
    let s2 = line_spec(s1, m.sender@, indent);
    let ranges = m.parts@[0]->Text_ranges;
    let text = m.text.unwrap()@;
    assert(join_ranges_spec(text, ranges@, 0, Seq::empty()) == Seq::<char>::empty());
    assert(text_part_body_spec(ranges@, text) == text);
    let s7 = line_spec(s2, text, indent);
    assert(text_part_spec(s2, m, ranges@, 0, indent, cfg) == s7);
    assert(tapback_block_spec(s7, m, 0, indent) == s7);
    assert(replies_fold_spec(m, cfg, indent, 0, 0, s7) == s7);
    assert(part_step_spec(m, cfg, indent, 0, 0, s2).0 == s7);
    assert(part_step_spec(m, cfg, indent, 0, 0, s2).1 == 0);
    assert(parts_fold_spec(m, cfg, indent, 1, 0, s7).0 == s7);
    assert(parts_fold_spec(m, cfg, indent, 0, 0, s2).0 == s7);
    assert(render_spec(m, cfg, 0) == s7 + "\n"@);
    reveal_strlit("\n");
    assert(render_spec(m, cfg, 0) =~= time + nl + m.sender@ + nl + text + nl + nl);
}

} // verus!
