//! The streaming-socket sink's wire protocol: an insert frame is a one-byte
//! command tag, a 4-byte big-endian length and that many payload bytes; a
//! flush is the tag alone. The peer answers every frame with exactly one
//! status byte. The connection is single-client and strictly sequential:
//! one frame, then its reply, never a second frame in between.
use vstd::prelude::*;

use crate::error::ExportError;
use crate::txt::{starts_with_spec, str_starts_with};

verus! {

/// The socket path the sink connects to: the configured value when it is
/// absolute, else the fixed default.
pub open spec fn socket_path_spec(configured: Option<String>) -> Seq<char> {
    match configured {
        Some(p) => if starts_with_spec(p@, "/"@) {
            p@
        } else {
            "/tmp/imessage-exporter.sock"@
        },
        None => "/tmp/imessage-exporter.sock"@,
    }
}

/// Resolve the socket path from the configured value.
pub fn resolve_socket_path(configured: Option<String>) -> (r: String)
    ensures
        r@ == socket_path_spec(configured),
{
    match configured {
        Some(p) => {
            if str_starts_with(p.as_str(), "/") {
                p
            } else {
                String::from_str("/tmp/imessage-exporter.sock")
            }
        },
        None => String::from_str("/tmp/imessage-exporter.sock"),
    }
}

/// The command tag of an insert frame (the byte `I`).
pub const CMD_INSERT: u8 = 73;

/// The command tag of a flush frame (the byte `F`).
pub const CMD_FLUSH: u8 = 70;

/// The success reply byte (`K`).
pub const REPLY_OK: u8 = 75;

/// The error reply byte (`E`).
pub const REPLY_ERROR: u8 = 69;

/// The four big-endian bytes of a length.
pub open spec fn be32_spec(n: int) -> Seq<u8> {
    seq![
        ((n / 0x1000000) % 256) as u8,
        ((n / 0x10000) % 256) as u8,
        ((n / 0x100) % 256) as u8,
        (n % 256) as u8,
    ]
}

/// The full insert frame for a serialized batch.
pub open spec fn insert_frame_spec(payload: Seq<u8>) -> Seq<u8> {
    seq![CMD_INSERT] + be32_spec(payload.len() as int) + payload
}

/// The sequential request/reply state of one socket connection.
pub struct SocketProtocol {
    /// True between sending a frame and reading its reply; no second frame
    /// may leave while it is set.
    pub awaiting_reply: bool,
}

impl SocketProtocol {
    /// A fresh connection: no frame in flight.
    pub fn new() -> (r: SocketProtocol)
        ensures
            !r.awaiting_reply,
    {
        SocketProtocol { awaiting_reply: false }
    }

    /// Build the insert frame for a serialized batch and mark the reply as
    /// owed. A payload too long for the 4-byte length field is refused
    /// before anything is framed.
    pub fn insert_frame(&mut self, payload: &Vec<u8>) -> (r: Result<Vec<u8>, ExportError>)
        requires
            !old(self).awaiting_reply,
        ensures
            match r {
                Ok(frame) => {
                    &&& payload@.len() <= u32::MAX as int
                    &&& frame@ == insert_frame_spec(payload@)
                    &&& final(self).awaiting_reply
                },
                Err(e) => {
                    &&& payload@.len() > u32::MAX as int
                    &&& !final(self).awaiting_reply
                    &&& e is SinkTransport
                },
            },
    {
        if payload.len() as u64 > u32::MAX as u64 {
            return Err(
                ExportError::SinkTransport(String::from_str("batch too large for one frame")),
            );
        }
        let n = payload.len() as u32;
        let mut frame: Vec<u8> = Vec::new();
        frame.push(CMD_INSERT);
        frame.push(((n / 0x1000000) % 256) as u8);
        frame.push(((n / 0x10000) % 256) as u8);
        frame.push(((n / 0x100) % 256) as u8);
        frame.push((n % 256) as u8);
        let mut i: usize = 0;
        while i < payload.len()
            invariant
                i <= payload@.len(),
                frame@ == seq![CMD_INSERT] + be32_spec(payload@.len() as int) + payload@.take(
                    i as int,
                ),
            decreases payload@.len() - i,
        {
            frame.push(payload[i]);
            i = i + 1;
            proof {
                assert(frame@ =~= seq![CMD_INSERT] + be32_spec(payload@.len() as int)
                    + payload@.take(i as int));
            }
        }
        self.awaiting_reply = true;
        proof {
            assert(frame@ =~= insert_frame_spec(payload@));
        }
        Ok(frame)
    }

    /// Build the flush frame and mark the reply as owed.
    pub fn flush_frame(&mut self) -> (r: Vec<u8>)
        requires
            !old(self).awaiting_reply,
        ensures
            r@ == seq![CMD_FLUSH],
            final(self).awaiting_reply,
    {
        let mut frame: Vec<u8> = Vec::new();
        frame.push(CMD_FLUSH);
        self.awaiting_reply = true;
        proof {
            assert(frame@ =~= seq![CMD_FLUSH]);
        }
        frame
    }

    /// Read the peer's one status byte for the frame in flight. Success on
    /// the success byte and nothing else; any other byte is the peer
    /// reporting an error, and the current batch sends no further frame.
    pub fn on_reply(&mut self, status: u8) -> (r: Result<(), ExportError>)
        requires
            old(self).awaiting_reply,
        ensures
            !final(self).awaiting_reply,
            r is Ok <==> status == REPLY_OK,
            r is Err ==> r->Err_0 is SinkTransport,
    {
        self.awaiting_reply = false;
        if status == REPLY_OK {
            Ok(())
        } else {
            Err(ExportError::SinkTransport(String::from_str("Server error")))
        }
    }
}

} // verus!
