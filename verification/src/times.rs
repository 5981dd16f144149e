//! Timestamp hydration: fills every display-text field of a message — the
//! header date, the read receipt's and the retraction notice's elapsed
//! times, each edit event's date and elapsed time, and each check-in date —
//! from the raw stamps, recursively through the replies, and touches
//! nothing else. The machine's time zone decides the wording of each text,
//! so the contract fixes when each text exists — which stamp pair feeds
//! which field — and leaves only the wording open.
use vstd::prelude::*;

use crate::dates::{
    date_renderable, elapsed_available, local_date_text, readable_between, stamp_to_unix_seconds,
};
use crate::model::{
    CheckInTiming, ContentPart, EditEvent, EditedInfo, RawMessage, Reply, TypedBalloon,
};
use crate::render::Renderer;

verus! {

/// The raw seconds a check-in date may carry: scaled to nanoseconds they
/// must still fit the stamp.
pub const CHECK_IN_SECONDS_BOUND: i64 = 9_223_372_036;

/// True when a check-in's date can be displayed: its raw seconds scale to a
/// stamp and the instant lies on the calendar.
pub open spec fn check_in_renderable(seconds: int) -> bool {
    &&& -(CHECK_IN_SECONDS_BOUND as int) <= seconds <= CHECK_IN_SECONDS_BOUND as int
    &&& date_renderable(seconds * 1_000_000_000, 0)
}

/// True when the message shows a read receipt: the elapsed time from send
/// to read for a received message, from send to delivery for the archive
/// owner's own — each only when both stamps are set and admit a diff.
pub open spec fn read_receipt_available(m: RawMessage, offset: int) -> bool {
    if !m.is_from_me && m.date_read != 0 && m.date != 0 {
        elapsed_available(m.date as int, m.date_read as int, offset)
    } else if m.is_from_me && m.date_delivered != 0 && m.date != 0 {
        elapsed_available(m.date as int, m.date_delivered as int, offset)
    } else {
        false
    }
}

/// True when `b` is `a` with its date text filled in: kind and raw seconds
/// unchanged, and no text at all when the date cannot be displayed.
pub open spec fn timing_like(a: Option<CheckInTiming>, b: Option<CheckInTiming>) -> bool {
    match (a, b) {
        (None, None) => true,
        (Some(x), Some(y)) => {
            &&& y.kind == x.kind
            &&& y.seconds == x.seconds
            &&& (!check_in_renderable(x.seconds as int) ==> y.date_text@.len() == 0)
        },
        _ => false,
    }
}

/// True when `b` is `a` with check-in date texts filled in.
pub open spec fn balloon_like(a: TypedBalloon, b: TypedBalloon) -> bool {
    match (a, b) {
        (
            TypedBalloon::CheckIn { caption: c1, timing: t1 },
            TypedBalloon::CheckIn { caption: c2, timing: t2 },
        ) => c1 == c2 && timing_like(t1, t2),
        _ => a == b,
    }
}

/// True when `b` is content part `a` with check-in date texts filled in.
pub open spec fn part_like(a: ContentPart, b: ContentPart) -> bool {
    match (a, b) {
        (ContentPart::AppBalloon { decoded: d1 }, ContentPart::AppBalloon { decoded: d2 }) => match (
            d1,
            d2,
        ) {
            (Ok(b1), Ok(b2)) => balloon_like(b1, b2),
            _ => d1 == d2,
        },
        _ => a == b,
    }
}

/// True when `b` carries the same edit events as `a`, each with its texts
/// filled in: the first event has no elapsed time, every later one has one
/// exactly when its stamp and the immediately preceding event's stamp admit
/// a diff, and a date that cannot be displayed leaves no date text.
pub open spec fn events_like(a: Seq<EditEvent>, b: Seq<EditEvent>, offset: int) -> bool {
    &&& a.len() == b.len()
    &&& forall|i: int|
        0 <= i < a.len() ==> #[trigger] b[i].date == a[i].date && b[i].text == a[i].text
    &&& forall|i: int|
        0 <= i < a.len() ==> (!date_renderable(a[i].date as int, offset) ==> (
        #[trigger] b[i].date_text)@.len() == 0)
    &&& (a.len() > 0 ==> b[0].elapsed_text is None)
    &&& forall|i: int|
        1 <= i < a.len() ==> ((#[trigger] b[i].elapsed_text) is Some <==> elapsed_available(
            a[i - 1].date as int,
            a[i].date as int,
            offset,
        ))
}

/// True when `b` is edit history `a` with event texts filled in.
pub open spec fn edited_like(a: Option<EditedInfo>, b: Option<EditedInfo>, offset: int) -> bool {
    match (a, b) {
        (None, None) => true,
        (Some(x), Some(y)) => {
            &&& x.parts@.len() == y.parts@.len()
            &&& forall|i: int|
                0 <= i < x.parts@.len() ==> #[trigger] y.parts@[i].status == x.parts@[i].status
                    && events_like(x.parts@[i].edit_history@, y.parts@[i].edit_history@, offset)
        },
        _ => false,
    }
}

/// True when `b` is message `a` with every display text filled in from the
/// raw stamps — all raw values, flags, parts, reactions and attachments
/// unchanged; the read receipt and the retraction elapsed time exist
/// exactly when their stamp pairs admit them; a header date that cannot be
/// displayed leaves no text; and the same recursively for each reply. Only
/// the wording of each text, which the machine's time zone decides, is
/// left open.
pub open spec fn hydrated_like(a: RawMessage, b: RawMessage, offset: int) -> bool
    decreases a,
{
    &&& b.rowid == a.rowid
    &&& b.guid == a.guid
    &&& b.text == a.text
    &&& b.service == a.service
    &&& b.handle_id == a.handle_id
    &&& b.destination_caller_id == a.destination_caller_id
    &&& b.subject == a.subject
    &&& b.sender == a.sender
    &&& b.date == a.date
    &&& b.date_read == a.date_read
    &&& b.date_delivered == a.date_delivered
    &&& b.date_edited == a.date_edited
    &&& (!date_renderable(a.date as int, offset) ==> b.date_text@.len() == 0)
    &&& (b.read_after_text is Some <==> read_receipt_available(a, offset))
    &&& (b.unsent_after_text is Some <==> elapsed_available(
        a.date as int,
        a.date_edited as int,
        offset,
    ))
    &&& b.is_from_me == a.is_from_me
    &&& b.is_read == a.is_read
    &&& b.is_deleted == a.is_deleted
    &&& b.is_edited == a.is_edited
    &&& b.is_reply == a.is_reply
    &&& b.is_tapback == a.is_tapback
    &&& b.is_shareplay == a.is_shareplay
    &&& b.started_sharing_location == a.started_sharing_location
    &&& b.stopped_sharing_location == a.stopped_sharing_location
    &&& b.chat_id == a.chat_id
    &&& b.deduped_chat_id == a.deduped_chat_id
    &&& b.thread_name == a.thread_name
    &&& b.thread_originator_guid == a.thread_originator_guid
    &&& b.num_attachments == a.num_attachments
    &&& b.num_replies == a.num_replies
    &&& b.expressive == a.expressive
    &&& b.attachments == a.attachments
    &&& b.tapbacks == a.tapbacks
    &&& b.parts@.len() == a.parts@.len()
    &&& forall|i: int| 0 <= i < a.parts@.len() ==> part_like(#[trigger] a.parts@[i], b.parts@[i])
    &&& edited_like(a.edited, b.edited, offset)
    &&& b.replies@.len() == a.replies@.len()
    &&& forall|i: int|
        0 <= i < a.replies@.len() ==> #[trigger] b.replies@[i].part_index
            == a.replies@[i].part_index && hydrated_like(
            a.replies@[i].message,
            b.replies@[i].message,
            offset,
        )
}

impl Renderer {
    /// The local display text of one raw stamp, or nothing's worth of text
    /// when the stamp cannot be displayed.
    fn date_text_of(&self, stamp: i64) -> (r: String)
        ensures
            !date_renderable(stamp as int, self.offset as int) ==> r@.len() == 0,
    {
        match stamp_to_unix_seconds(stamp, self.offset) {
            Some(_) => match local_date_text(stamp, self.offset) {
                Some(t) => t,
                None => String::new(),
            },
            None => String::new(),
        }
    }

    /// The readable elapsed time between two raw stamps, exactly when they
    /// admit one.
    fn elapsed_between(&self, start: i64, end: i64) -> (r: Option<String>)
        ensures
            r is Some <==> elapsed_available(start as int, end as int, self.offset as int),
    {
        match (
            stamp_to_unix_seconds(start, self.offset),
            stamp_to_unix_seconds(end, self.offset),
        ) {
            (Some(_), Some(_)) => readable_between(start, end, self.offset),
            _ => None,
        }
    }

    /// Fill the date text of one check-in, scaling its raw seconds to a
    /// stamp; a date that cannot be displayed leaves no text.
    fn hydrate_timing(&self, t: &mut CheckInTiming)
        ensures
            final(t).kind == old(t).kind,
            final(t).seconds == old(t).seconds,
            !check_in_renderable(old(t).seconds as int) ==> final(t).date_text@.len() == 0,
    {
        if -CHECK_IN_SECONDS_BOUND <= t.seconds && t.seconds <= CHECK_IN_SECONDS_BOUND {
            t.date_text = match local_date_text(t.seconds * 1_000_000_000, 0) {
                Some(s) => s,
                None => String::new(),
            };
        } else {
            t.date_text = String::new();
        }
    }

    /// Fill the check-in date texts of the content parts.
    fn hydrate_parts(&self, parts: &mut Vec<ContentPart>)
        ensures
            final(parts)@.len() == old(parts)@.len(),
            forall|i: int|
                0 <= i < old(parts)@.len() ==> part_like(
                    #[trigger] old(parts)@[i],
                    final(parts)@[i],
                ),
    {
        let ghost orig = parts@;
        let mut i: usize = 0;
        while i < parts.len()
            invariant
                i <= orig.len(),
                parts@.len() == orig.len(),
                forall|k: int| 0 <= k < i ==> part_like(#[trigger] orig[k], parts@[k]),
                forall|k: int| i <= k < orig.len() ==> parts@[k] == orig[k],
            decreases orig.len() - i,
        {
            if let ContentPart::AppBalloon { decoded } = &mut parts[i] {
                if let Ok(balloon) = decoded {
                    if let TypedBalloon::CheckIn { caption: _, timing } = balloon {
                        if let Some(t) = timing {
                            self.hydrate_timing(t);
                        }
                    }
                }
            }
            i = i + 1;
        }
    }

    /// Fill the date text of each edit event, and the elapsed time since
    /// the immediately preceding event.
    fn hydrate_events(&self, events: &mut Vec<EditEvent>)
        ensures
            events_like(old(events)@, final(events)@, self.offset as int),
    {
        let ghost orig = events@;
        let mut prev: Option<i64> = None;
        let mut i: usize = 0;
        while i < events.len()
            invariant
                i <= orig.len(),
                events@.len() == orig.len(),
                prev == if i == 0 {
                    None::<i64>
                } else {
                    Some(orig[i - 1].date)
                },
                forall|k: int|
                    0 <= k < orig.len() ==> #[trigger] events@[k].date == orig[k].date
                        && events@[k].text == orig[k].text,
                forall|k: int| i <= k < orig.len() ==> events@[k] == orig[k],
                forall|k: int|
                    0 <= k < i ==> (!date_renderable(orig[k].date as int, self.offset as int)
                        ==> (#[trigger] events@[k].date_text)@.len() == 0),
                i > 0 ==> events@[0].elapsed_text is None,
                forall|k: int|
                    1 <= k < i ==> ((#[trigger] events@[k].elapsed_text) is Some
                        <==> elapsed_available(
                        orig[k - 1].date as int,
                        orig[k].date as int,
                        self.offset as int,
                    )),
            decreases orig.len() - i,
        {
            let date = events[i].date;
            let text = self.date_text_of(date);
            events[i].date_text = text;
            let elapsed = match prev {
                Some(p) => self.elapsed_between(p, date),
                None => None,
            };
            events[i].elapsed_text = elapsed;
            prev = Some(date);
            i = i + 1;
        }
    }

    /// Fill the event texts of the edit history.
    fn hydrate_edited(&self, info: &mut EditedInfo)
        ensures
            edited_like(Some(*old(info)), Some(*final(info)), self.offset as int),
    {
        let ghost orig = info.parts@;
        let mut i: usize = 0;
        while i < info.parts.len()
            invariant
                i <= orig.len(),
                info.parts@.len() == orig.len(),
                forall|k: int| 0 <= k < orig.len() ==> #[trigger] info.parts@[k].status == orig[k].status,
                forall|k: int|
                    0 <= k < i ==> events_like(
                        orig[k].edit_history@,
                        (#[trigger] info.parts@[k]).edit_history@,
                        self.offset as int,
                    ),
                forall|k: int| i <= k < orig.len() ==> info.parts@[k] == orig[k],
            decreases orig.len() - i,
        {
            let ghost pre = info.parts@;
            self.hydrate_events(&mut info.parts[i].edit_history);
            proof {
                assert forall|k: int| 0 <= k < i + 1 implies events_like(
                    orig[k].edit_history@,
                    (#[trigger] info.parts@[k]).edit_history@,
                    self.offset as int,
                ) by {
                    if k < i {
                        assert(info.parts@[k] == pre[k]);
                        assert(events_like(
                            orig[k].edit_history@,
                            pre[k].edit_history@,
                            self.offset as int,
                        ));
                    } else {
                        assert(pre[k] == orig[k]);
                    }
                }
            }
            i = i + 1;
        }
    }

    /// Hydrate each reply message, recursively.
    fn hydrate_replies(&self, replies: &mut Vec<Reply>)
        ensures
            final(replies)@.len() == old(replies)@.len(),
            forall|i: int|
                0 <= i < old(replies)@.len() ==> #[trigger] final(replies)@[i].part_index == old(
                    replies,
                )@[i].part_index && hydrated_like(
                    old(replies)@[i].message,
                    final(replies)@[i].message,
                    self.offset as int,
                ),
        decreases *old(replies), 0int,
    {
        let ghost orig = replies@;
        let mut i: usize = 0;
        while i < replies.len()
            invariant
                i <= orig.len(),
                orig == old(replies)@,
                replies@.len() == orig.len(),
                forall|k: int|
                    0 <= k < i ==> #[trigger] replies@[k].part_index == orig[k].part_index
                        && hydrated_like(orig[k].message, replies@[k].message, self.offset as int),
                forall|k: int| i <= k < orig.len() ==> replies@[k] == orig[k],
            decreases orig.len() - i,
        {
            proof {
                assert(replies@[i as int] == orig[i as int]);
                assert(decreases_to!(*old(replies) => old(replies)@));
                assert(decreases_to!(orig => orig[i as int]));
                assert(decreases_to!(orig[i as int] => orig[i as int].message));
            }
            let ghost pre = replies@;
            self.resolve_times(&mut replies[i].message);
            proof {
                assert(pre[i as int] == orig[i as int]);
                assert forall|k: int| 0 <= k < i + 1 implies #[trigger] replies@[k].part_index
                    == orig[k].part_index && hydrated_like(
                    orig[k].message,
                    replies@[k].message,
                    self.offset as int,
                ) by {
                    if k < i {
                        assert(replies@[k] == pre[k]);
                        assert(pre[k].part_index == orig[k].part_index);
                        assert(hydrated_like(
                            orig[k].message,
                            pre[k].message,
                            self.offset as int,
                        ));
                    } else {
                        assert(hydrated_like(
                            pre[i as int].message,
                            replies@[i as int].message,
                            self.offset as int,
                        ));
                    }
                }
            }
            i = i + 1;
        }
    }

    /// Fill every display text of a message from its raw stamps — the
    /// header date, the read receipt's and the retraction notice's elapsed
    /// times, each edit event's date and elapsed time, each check-in date —
    /// and the same recursively for each reply. Everything else stays
    /// exactly as it was; each text exists exactly when its stamps admit
    /// it, and only its wording is the machine's.
    pub fn resolve_times(&self, m: &mut RawMessage)
        ensures
            hydrated_like(*old(m), *final(m), self.offset as int),
        decreases *old(m), 1int,
    {
        proof {
            assert(decreases_to!(*old(m) => old(m).replies));
        }
        self.hydrate_replies(&mut m.replies);
        self.hydrate_parts(&mut m.parts);
        if let Some(info) = &mut m.edited {
            self.hydrate_edited(info);
        }
        m.date_text = self.date_text_of(m.date);
        m.read_after_text = if !m.is_from_me && m.date_read != 0 && m.date != 0 {
            self.elapsed_between(m.date, m.date_read)
        } else if m.is_from_me && m.date_delivered != 0 && m.date != 0 {
            self.elapsed_between(m.date, m.date_delivered)
        } else {
            None
        };
        m.unsent_after_text = self.elapsed_between(m.date, m.date_edited);
    }
}

} // verus!
