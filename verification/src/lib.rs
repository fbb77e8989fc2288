//! Extraction and download pipeline for embedded audio resources.
//!
//! An index page links to module pages; each module page carries zero or
//! more embedded audio widgets; each widget names one media resource.  The
//! library walks that tree — index to module links, module sections to
//! media descriptors — synthesizes one download task per descriptor, and
//! tracks the chunked, progress-reported download of each resource.  The
//! network transport, the filesystem and the progress rendering stay with
//! the caller; every decision the pipeline makes is here.

pub mod errors;
pub mod extract;
pub mod progress;
pub mod scrape;
pub mod tasks;
pub mod text;
