use vstd::prelude::*;
use vstd::string::StringExecFns;

use crate::extract::MediaDescriptor;

verus! {

/// The fixed media-retrieval endpoint; the raw identifier is appended as
/// the value of its `mediaid` query parameter.
pub open spec fn media_endpoint() -> Seq<char> {
    "https://res.wx.qq.com/voice/getvoice?mediaid="@
}

/// The fixed local directory downloads are written into; it is assumed to
/// exist already.
pub open spec fn download_dir() -> Seq<char> {
    "./download/"@
}

/// One download to perform: where to GET the resource and where to write
/// it.  Derived from one descriptor and not stored beyond its download.
pub struct DownloadTask {
    /// The fixed endpoint with the descriptor's raw identifier appended.
    pub source_url: String,
    /// The fixed directory with the descriptor's display filename appended.
    pub destination_path: String,
}

/// Synthesize the download task of one descriptor by concatenation: the
/// endpoint plus the verbatim identifier, and the directory plus the
/// display filename.
pub fn make_task(descriptor: &MediaDescriptor) -> (t: DownloadTask)
    ensures
        t.source_url@ == media_endpoint() + descriptor.raw_identifier@,
        t.destination_path@ == download_dir() + descriptor.display_name@,
{
    let mut url = String::from_str("https://res.wx.qq.com/voice/getvoice?mediaid=");
    url.append(descriptor.raw_identifier.as_str());
    let mut path = String::from_str("./download/");
    path.append(descriptor.display_name.as_str());
    DownloadTask { source_url: url, destination_path: path }
}

} // verus!
