//! The export pipeline: renders each incoming message into a transport
//! record and accumulates records in a bounded buffer. A full batch is
//! handed back to the driver the moment the threshold is reached; the
//! remainder is handed back when the stream ends. Batches leave in source
//! order and their concatenation is exactly the record stream.
use vstd::prelude::*;

use crate::model::{ContentPart, RawMessage};
use crate::render::Renderer;
use crate::transport::{record_matches, Message};

verus! {

/// The fixed size at which a buffered batch is flushed to the sink.
pub const BATCH_THRESHOLD: usize = 1000;

/// Counters the pipeline reports when a run ends.
pub struct ExportStats {
    /// Messages rendered and buffered.
    pub messages_exported: usize,
    /// Batches handed to the sink.
    pub batches_flushed: usize,
    /// Messages whose render recovered from a decode fault inline, plus
    /// messages the decode layer rejected outright; surfaced in the final
    /// summary.
    pub render_faults: usize,
}

/// True when some content part of the message carries a balloon payload
/// the decoder could not turn into a typed balloon: its render recovered
/// with an inline diagnostic.
pub open spec fn has_decode_fault(m: RawMessage) -> bool {
    exists|i: int|
        0 <= i < m.parts@.len() && (#[trigger] m.parts@[i]) matches ContentPart::AppBalloon {
            decoded: Err(_),
        }
}

/// Test whether some content part carries a decode fault.
fn message_has_decode_fault(m: &RawMessage) -> (r: bool)
    ensures
        r == has_decode_fault(*m),
{
    let mut i: usize = 0;
    while i < m.parts.len()
        invariant
            i <= m.parts@.len(),
            forall|k: int|
                0 <= k < i ==> !((#[trigger] m.parts@[k]) matches ContentPart::AppBalloon {
                    decoded: Err(_),
                }),
        decreases m.parts@.len() - i,
    {
        if let ContentPart::AppBalloon { decoded: Err(_) } = &m.parts[i] {
            return true;
        }
        i = i + 1;
    }
    false
}

/// The batching pipeline: rendering options and the in-memory record
/// buffer. The buffer never reaches the threshold between calls.
pub struct ExportPipeline {
    pub renderer: Renderer,
    /// Records buffered since the last batch left.
    pub messages: Vec<Message>,
    pub stats: ExportStats,
}

impl ExportPipeline {
    /// The buffer stays strictly below the batch threshold between calls.
    pub open spec fn wf(&self) -> bool {
        self.messages@.len() < BATCH_THRESHOLD as int
    }

    /// A fresh pipeline with an empty buffer.
    pub fn new(renderer: Renderer) -> (r: ExportPipeline)
        ensures
            r.wf(),
            r.messages@.len() == 0,
            r.stats.messages_exported == 0,
            r.stats.batches_flushed == 0,
            r.stats.render_faults == 0,
            r.renderer == renderer,
    {
        ExportPipeline {
            renderer,
            messages: Vec::new(),
            stats: ExportStats { messages_exported: 0, batches_flushed: 0, render_faults: 0 },
        }
    }

    /// Render one message, append its record to the buffer, and hand back a
    /// full batch when the buffer reaches the threshold. The batch holds
    /// exactly the threshold's worth of records, in arrival order, the new
    /// record last. A message whose render recovered from a decode fault
    /// inline is still exported, and counted.
    pub fn write_message(&mut self, m: &RawMessage) -> (r: Option<Vec<Message>>)
        requires
            old(self).wf(),
            old(self).stats.messages_exported < usize::MAX,
            old(self).stats.batches_flushed < usize::MAX,
            old(self).stats.render_faults < usize::MAX,
        ensures
            final(self).wf(),
            final(self).renderer == old(self).renderer,
            final(self).stats.messages_exported == old(self).stats.messages_exported + 1,
            final(self).stats.render_faults == old(self).stats.render_faults + (if has_decode_fault(
                *m,
            ) {
                1int
            } else {
                0int
            }),
            match r {
                Some(batch) => {
                    &&& old(self).messages@.len() + 1 == BATCH_THRESHOLD as int
                    &&& batch@.len() == BATCH_THRESHOLD as int
                    &&& batch@.drop_last() == old(self).messages@
                    &&& record_matches(batch@.last(), *m, old(self).renderer)
                    &&& final(self).messages@.len() == 0
                    &&& final(self).stats.batches_flushed == old(self).stats.batches_flushed + 1
                },
                None => {
                    &&& old(self).messages@.len() + 1 < BATCH_THRESHOLD as int
                    &&& final(self).messages@.drop_last() == old(self).messages@
                    &&& final(self).messages@.len() == old(self).messages@.len() + 1
                    &&& record_matches(final(self).messages@.last(), *m, old(self).renderer)
                    &&& final(self).stats.batches_flushed == old(self).stats.batches_flushed
                },
            },
    {
        let record = self.renderer.make_record(m);
        self.messages.push(record);
        self.stats.messages_exported = self.stats.messages_exported + 1;
        if message_has_decode_fault(m) {
            self.stats.render_faults = self.stats.render_faults + 1;
        }
        if self.messages.len() >= BATCH_THRESHOLD {
            let mut batch: Vec<Message> = Vec::new();
            core::mem::swap(&mut batch, &mut self.messages);
            self.stats.batches_flushed = self.stats.batches_flushed + 1;
            proof {
                assert(batch@.drop_last() =~= old(self).messages@);
            }
            Some(batch)
        } else {
            proof {
                assert(self.messages@.drop_last() =~= old(self).messages@);
            }
            None
        }
    }

    /// Record one message that never reached the renderer — the decode
    /// layer rejected it outright: it is counted for the final summary and
    /// skipped, and the buffer takes nothing.
    pub fn record_failed_message(&mut self)
        requires
            old(self).stats.render_faults < usize::MAX,
        ensures
            final(self).renderer == old(self).renderer,
            final(self).messages == old(self).messages,
            final(self).stats.messages_exported == old(self).stats.messages_exported,
            final(self).stats.batches_flushed == old(self).stats.batches_flushed,
            final(self).stats.render_faults == old(self).stats.render_faults + 1,
    {
        self.stats.render_faults = self.stats.render_faults + 1;
    }

    /// Hand back whatever the buffer still holds, in arrival order, leaving
    /// it empty. The driver sends a non-empty remainder as the final partial
    /// batch.
    pub fn flush_messages(&mut self) -> (r: Vec<Message>)
        requires
            old(self).stats.batches_flushed < usize::MAX,
        ensures
            final(self).wf(),
            final(self).renderer == old(self).renderer,
            final(self).stats.messages_exported == old(self).stats.messages_exported,
            final(self).stats.render_faults == old(self).stats.render_faults,
            r@ == old(self).messages@,
            final(self).messages@.len() == 0,
            final(self).stats.batches_flushed == if old(self).messages@.len() > 0 {
                old(self).stats.batches_flushed + 1
            } else {
                old(self).stats.batches_flushed as int
            },
    {
        let mut batch: Vec<Message> = Vec::new();
        core::mem::swap(&mut batch, &mut self.messages);
        if batch.len() > 0 {
            self.stats.batches_flushed = self.stats.batches_flushed + 1;
        }
        batch
    }
}

} // verus!
