use vstd::prelude::*;

use crate::errors::PipelineError;

verus! {

/// Cumulative progress of one streaming download.
///
/// The model is the sequence of bytes handed over so far (`written_bytes`,
/// ghost) together with the reported position: the number of bytes received,
/// capped at the total announced by the content-length header.  A progress
/// value exists only for the lifetime of one download; a new download starts
/// from a fresh value, so nothing of an earlier, longer stream survives.
pub struct DownloadProgress {
    total: u64,
    downloaded: u64,
    written: Ghost<Seq<u8>>,
}

impl DownloadProgress {
    /// The total announced by the response's content-length header.
    pub closed spec fn total_bytes(self) -> u64 {
        self.total
    }

    /// The position reported after the chunks received so far.
    pub closed spec fn downloaded_bytes(self) -> u64 {
        self.downloaded
    }

    /// Every byte handed to `advance` so far, in order.
    pub closed spec fn written_bytes(self) -> Seq<u8> {
        self.written@
    }

    /// The reported position is always the received byte count capped at the
    /// total, and in particular never exceeds the total.
    pub closed spec fn wf(self) -> bool {
        &&& self.downloaded <= self.total
        &&& self.downloaded as int == vstd::math::min(
            self.written@.len() as int,
            self.total as int,
        )
    }

    /// Start tracking one download from the response's content length.
    ///
    /// A response without a content-length header is rejected with
    /// `LengthUnknown` before anything is written; a known length starts a
    /// fresh, empty progress: position zero and no bytes written.
    pub fn begin(content_length: Option<u64>) -> (r: Result<DownloadProgress, PipelineError>)
        ensures
            content_length is None ==> r == Err::<DownloadProgress, PipelineError>(
                PipelineError::LengthUnknown,
            ),
            content_length matches Some(t) ==> (r matches Ok(p)
                && p.total_bytes() == t
                && p.downloaded_bytes() == 0
                && p.written_bytes() == Seq::<u8>::empty()
                && p.wf()),
    {
        match content_length {
            None => Err(PipelineError::LengthUnknown),
            Some(t) => Ok(DownloadProgress { total: t, downloaded: 0, written: Ghost(Seq::empty()) }),
        }
    }

    /// Record one received chunk and report the new position.
    ///
    /// The position advances by the chunk's size, capped so it never exceeds
    /// the total: it never decreases, and it increases strictly whenever a
    /// non-empty chunk arrives before the total is reached.
    pub fn advance(&mut self, chunk: &[u8]) -> (pos: u64)
        requires
            old(self).wf(),
        ensures
            final(self).wf(),
            final(self).total_bytes() == old(self).total_bytes(),
            final(self).written_bytes() == old(self).written_bytes() + chunk@,
            final(self).downloaded_bytes() as int == vstd::math::min(
                old(self).downloaded_bytes() as int + chunk@.len() as int,
                old(self).total_bytes() as int,
            ),
            pos == final(self).downloaded_bytes(),
            old(self).downloaded_bytes() <= final(self).downloaded_bytes()
                <= final(self).total_bytes(),
            old(self).downloaded_bytes() < old(self).total_bytes() && chunk@.len() > 0
                ==> final(self).downloaded_bytes() > old(self).downloaded_bytes(),
    {
        let len_u64: u64 = chunk.len() as u64;
        let remaining: u64 = self.total - self.downloaded;
        let new_pos: u64 = if len_u64 >= remaining {
            self.total
        } else {
            self.downloaded + len_u64
        };
        self.downloaded = new_pos;
        let ghost w = self.written@ + chunk@;
        self.written = Ghost(w);
        new_pos
    }

    /// The total, for the driver's progress sink.
    pub fn total(&self) -> (t: u64)
        ensures
            t == self.total_bytes(),
    {
        self.total
    }

    /// The current reported position.
    pub fn position(&self) -> (p: u64)
        ensures
            p == self.downloaded_bytes(),
    {
        self.downloaded
    }

    /// Whether the reported position has reached the total.
    pub fn is_complete(&self) -> (b: bool)
        ensures
            b == (self.downloaded_bytes() == self.total_bytes()),
    {
        self.downloaded == self.total
    }
}

/// Two downloads that announce the same total and have received the same
/// bytes report the same position — the outcome of a run depends on the
/// stream alone, never on what the destination held before it.  Together
/// with `begin`, which starts every run from the empty written model, this
/// says a re-run against an unchanged source leaves identical bytes and
/// reports identical progress.
pub proof fn lemma_same_stream_same_outcome(a: DownloadProgress, b: DownloadProgress)
    requires
        a.wf(),
        b.wf(),
        a.total_bytes() == b.total_bytes(),
        a.written_bytes() == b.written_bytes(),
    ensures
        a.downloaded_bytes() == b.downloaded_bytes(),
{
}

/// When the stream has supplied exactly the announced number of bytes, the
/// final reported position equals the total exactly.
pub proof fn lemma_exact_stream_completes(p: DownloadProgress)
    requires
        p.wf(),
        p.written_bytes().len() == p.total_bytes(),
    ensures
        p.downloaded_bytes() == p.total_bytes(),
{
}

} // verus!
