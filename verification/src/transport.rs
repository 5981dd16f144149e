//! The transport record: the flattened, storage-agnostic projection of one
//! message that the pipeline buffers and the sinks store — the rendered
//! transcript, the resolved thread name and attachment paths, and a grouping
//! key that is never empty.
use vstd::prelude::*;

use crate::dates::{
    rescaled_seconds, stamp_offset_fits, stamp_to_unix_seconds, utc_date_text, utc_text,
};
use crate::model::{AttachmentInfo, RawMessage};
use crate::render::{render_spec, Renderer};
use crate::txt::{int_text, int_text_spec};

verus! {

/// One transport record, owned by the pipeline until a batch hands it to the
/// sink.
#[derive(Default)]
pub struct Message {
    pub rowid: i32,
    pub guid: String,
    pub text: Option<String>,
    pub service: Option<String>,
    pub handle_id: Option<i32>,
    pub destination_caller_id: Option<String>,
    pub subject: Option<String>,
    pub date: String,
    pub date_read: String,
    pub date_delivered: String,
    pub date_edited: String,
    pub is_from_me: bool,
    pub is_read: bool,
    pub thread_originator_guid: Option<String>,
    pub chat_id: Option<i32>,
    pub unique_chat_id: String,
    pub num_attachments: i32,
    pub num_replies: i32,
    pub full_message: String,
    pub thread_name: Option<String>,
    pub attachment_paths: Vec<String>,
    pub is_deleted: bool,
    pub is_edited: bool,
    pub is_reply: bool,
    pub phone_number: String,
}

/// The stored form of one raw timestamp: its UTC display text, or the
/// empty string when the stamp cannot be placed on the calendar.
pub open spec fn record_date_spec(stamp: int, offset: int) -> Seq<char> {
    if stamp_offset_fits(stamp, offset) {
        match utc_text(rescaled_seconds(stamp) + offset) {
            Some(t) => t,
            None => Seq::<char>::empty(),
        }
    } else {
        Seq::<char>::empty()
    }
}

impl Renderer {
    /// Format one raw timestamp for storage, in UTC — distinct from the
    /// header's local display text.
    pub fn record_date(&self, stamp: i64) -> (r: String)
        ensures
            r@ == record_date_spec(stamp as int, self.offset as int),
    {
        match stamp_to_unix_seconds(stamp, self.offset) {
            Some(secs) => match utc_date_text(secs) {
                Some(t) => t,
                None => String::new(),
            },
            None => String::new(),
        }
    }
}

/// The grouping key of a message: the deduplicated conversation id when the
/// conversation resolves to one, else the raw chat id, else the sender's
/// identity with a fixed sentinel suffix.
pub open spec fn unique_chat_id_spec(m: RawMessage) -> Seq<char> {
    match m.deduped_chat_id {
        Some(id) => int_text_spec(id as int),
        None => match m.chat_id {
            Some(id) => int_text_spec(id as int),
            None => m.sender@ + ":Missing_chat_id"@,
        },
    }
}

/// The grouping key is never the empty string, whatever the message: a
/// resolved or raw chat id renders at least one digit, and the fallback
/// carries the fixed sentinel suffix.
pub proof fn lemma_unique_chat_id_nonempty(m: RawMessage)
    ensures
        unique_chat_id_spec(m).len() > 0,
{
    reveal_strlit(":Missing_chat_id");
    match m.deduped_chat_id {
        Some(id) => {
            assert(int_text_spec(id as int).len() > 0);
        },
        None => {
            match m.chat_id {
                Some(id) => {
                    assert(int_text_spec(id as int).len() > 0);
                },
                None => {},
            }
        },
    }
}

/// The resolved display paths of the attachments from position `i` on;
/// attachments the manager could not resolve contribute nothing.
pub open spec fn attachment_paths_spec(atts: Seq<AttachmentInfo>, i: int) -> Seq<String>
    decreases atts.len() - i,
{
    if i < 0 || i >= atts.len() {
        Seq::empty()
    } else {
        match atts[i].resolved_path {
            Some(p) => seq![p] + attachment_paths_spec(atts, i + 1),
            None => attachment_paths_spec(atts, i + 1),
        }
    }
}

/// True when `r` is the transport record of `m` under rendering options
/// `cfg`: every field a faithful projection, the transcript the renderer's
/// output, and the grouping key as `unique_chat_id_spec` gives it.
pub open spec fn record_matches(r: Message, m: RawMessage, cfg: Renderer) -> bool {
    &&& r.rowid == m.rowid
    &&& r.guid == m.guid
    &&& r.text == m.text
    &&& r.service == m.service
    &&& r.handle_id == m.handle_id
    &&& r.destination_caller_id == m.destination_caller_id
    &&& r.subject == m.subject
    &&& r.date@ == record_date_spec(m.date as int, cfg.offset as int)
    &&& r.date_read@ == record_date_spec(m.date_read as int, cfg.offset as int)
    &&& r.date_delivered@ == record_date_spec(m.date_delivered as int, cfg.offset as int)
    &&& r.date_edited@ == record_date_spec(m.date_edited as int, cfg.offset as int)
    &&& r.is_from_me == m.is_from_me
    &&& r.is_read == m.is_read
    &&& r.thread_originator_guid == m.thread_originator_guid
    &&& r.chat_id == m.chat_id
    &&& r.unique_chat_id@ == unique_chat_id_spec(m)
    &&& r.num_attachments == m.num_attachments
    &&& r.num_replies == m.num_replies
    &&& r.full_message@ == render_spec(m, cfg, 0)
    &&& r.thread_name == m.thread_name
    &&& r.attachment_paths@ == attachment_paths_spec(m.attachments@, 0)
    &&& r.is_deleted == m.is_deleted
    &&& r.is_edited == m.is_edited
    &&& r.is_reply == m.is_reply
    &&& r.phone_number == m.sender
}

impl Renderer {
    /// Compute the grouping key of a message. It is never empty.
    pub fn unique_chat_id(&self, m: &RawMessage) -> (r: String)
        ensures
            r@ == unique_chat_id_spec(*m),
            r@.len() > 0,
    {
        proof {
            lemma_unique_chat_id_nonempty(*m);
        }
        match m.deduped_chat_id {
            Some(id) => int_text(id as i64),
            None => match m.chat_id {
                Some(id) => int_text(id as i64),
                None => {
                    let mut out = m.sender.clone();
                    out.append(":Missing_chat_id");
                    out
                },
            },
        }
    }

    /// Build the transport record of one message: render the transcript,
    /// resolve the grouping key and project the remaining fields.
    pub fn make_record(&self, m: &RawMessage) -> (r: Message)
        ensures
            record_matches(r, *m, *self),
    {
        let full_message = self.format_message(m, 0);
        let unique_chat_id = self.unique_chat_id(m);

        let mut attachment_paths: Vec<String> = Vec::new();
        let mut i: usize = 0;
        while i < m.attachments.len()
            invariant
                i <= m.attachments@.len(),
                attachment_paths_spec(m.attachments@, 0) == attachment_paths@
                    + attachment_paths_spec(m.attachments@, i as int),
            decreases m.attachments@.len() - i,
        {
            let ghost before = attachment_paths@;
            if let Some(p) = &m.attachments[i].resolved_path {
                attachment_paths.push(p.clone());
            }
            proof {
                assert(before + attachment_paths_spec(m.attachments@, i as int) =~= (
                attachment_paths@ + attachment_paths_spec(m.attachments@, i + 1)));
            }
            i = i + 1;
        }
        proof {
            assert(attachment_paths@ + attachment_paths_spec(m.attachments@, i as int)
                =~= attachment_paths@);
        }

        Message {
            rowid: m.rowid,
            guid: m.guid.clone(),
            text: m.text.clone(),
            service: m.service.clone(),
            handle_id: m.handle_id,
            destination_caller_id: m.destination_caller_id.clone(),
            subject: m.subject.clone(),
            date: self.record_date(m.date),
            date_read: self.record_date(m.date_read),
            date_delivered: self.record_date(m.date_delivered),
            date_edited: self.record_date(m.date_edited),
            is_from_me: m.is_from_me,
            is_read: m.is_read,
            thread_originator_guid: m.thread_originator_guid.clone(),
            chat_id: m.chat_id,
            unique_chat_id,
            num_attachments: m.num_attachments,
            num_replies: m.num_replies,
            full_message,
            thread_name: m.thread_name.clone(),
            attachment_paths,
            is_deleted: m.is_deleted,
            is_edited: m.is_edited,
            is_reply: m.is_reply,
            phone_number: m.sender.clone(),
        }
    }
}

} // verus!
