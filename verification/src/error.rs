//! The error taxonomy of the export core. Rendering faults are recovered
//! inline by the renderer; the kinds here are the fatal ones surfaced by the
//! pipeline and the sinks.
use vstd::prelude::*;

verus! {

/// A fatal export error, with its diagnostic text.
#[derive(Debug)]
pub enum ExportError {
    /// The archive reader failed; aborts the run.
    Source(String),
    /// A network, socket or storage failure during insert or flush; fatal to
    /// the current run, never retried.
    SinkTransport(String),
    /// The graph pass failed.
    GraphMaterialize(String),
}

impl ExportError {
    /// The diagnostic text of this error.
    pub open spec fn text_spec(&self) -> Seq<char> {
        match self {
            ExportError::Source(t) => t@,
            ExportError::SinkTransport(t) => t@,
            ExportError::GraphMaterialize(t) => t@,
        }
    }

    /// The diagnostic text of this error.
    pub fn text(&self) -> (r: &str)
        ensures
            r@ == self.text_spec(),
    {
        match self {
            ExportError::Source(t) => t.as_str(),
            ExportError::SinkTransport(t) => t.as_str(),
            ExportError::GraphMaterialize(t) => t.as_str(),
        }
    }
}

} // verus!
