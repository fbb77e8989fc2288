use vstd::prelude::*;

verus! {

/// The failures the pipeline distinguishes: one variant per stage fault.
/// Every fault is fatal for the run that raises it; there is no retry and
/// no per-item recovery.
#[derive(Clone, Copy, Debug, PartialEq, Eq, Structural)]
pub enum PipelineError {
    /// A GET request could not be sent, or the response was unsuccessful.
    FetchFailed,
    /// A structural selector matched no node where one was required.
    ParseStructureMissing,
    /// A required markup attribute was absent from a matched widget.
    AttributeMissing,
    /// A response carried no content-length header.
    LengthUnknown,
    /// The destination file could not be created.
    CreateFailed,
    /// Retrieving a chunk from the body stream failed.
    StreamError,
    /// Appending a chunk to the destination file failed.
    WriteError,
}

} // verus!
