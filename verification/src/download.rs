//! Chunked-download progress tracking.
//!
//! A download is a stream of chunks whose total size is known up front from
//! the response's content-length. The state machine here owns the running
//! byte counter; the caller performs the transfer and the file writes, and
//! hands each chunk's size (and the elapsed wall-clock seconds) to
//! [`DownloadProgress::on_chunk`], which returns the figures a progress
//! display needs.

use crate::error::Error;
use crate::records::Files;
use crate::text::str_eq;
use vstd::prelude::*;
use vstd::string::StringExecFns;

verus! {

/// The asset type that marks a version's installable package.
pub open spec fn spec_package_asset_type() -> Seq<char> {
    "Microsoft.VisualStudio.Services.VSIXPackage"@
}

/// An asset carrying the installable package.
pub open spec fn is_package_asset(f: Files) -> bool {
    f.assetType@ == spec_package_asset_type()
}

/// Finds the installable package among a version's assets: the first one
/// whose type marks it as the package. A version without one cannot be
/// downloaded — that is an error, never a silent skip.
pub fn find_package_asset(files: &Vec<Files>) -> (r: Result<usize, Error>)
    ensures
        match r {
            Ok(i) => {
                &&& i < files@.len()
                &&& is_package_asset(files@[i as int])
                &&& forall|j: int| 0 <= j < i ==> !is_package_asset(#[trigger] files@[j])
            },
            Err(e) => {
                &&& e == Error::IndexOutOfBound
                &&& forall|j: int| 0 <= j < files@.len() ==> !is_package_asset(
                    #[trigger] files@[j],
                )
            },
        },
{
    let n: usize = files.len();
    let mut k: usize = 0;
    while k < n
        invariant
            0 <= k <= n,
            n == files@.len(),
            forall|j: int| 0 <= j < k ==> !is_package_asset(#[trigger] files@[j]),
        decreases n - k,
    {
        if str_eq(files[k].assetType.as_str(), "Microsoft.VisualStudio.Services.VSIXPackage") {
            return Ok(k);
        }
        k = k + 1;
    }
    Err(Error::IndexOutOfBound)
}

/// The package's file name: `{publisher}.{extensionName}-{version}.vsix`.
pub fn package_filename(publisher: &str, name: &str, version: &str) -> (s: String)
    ensures
        s@ == publisher@ + "."@ + name@ + "-"@ + version@ + ".vsix"@,
{
    let mut s: String = publisher.to_owned();
    s.append(".");
    s.append(name);
    s.append("-");
    s.append(version);
    s.append(".vsix");
    s
}

/// Running state of one chunked download.
pub struct DownloadProgress {
    /// Total expected bytes, taken from the response's content-length.
    /// Always nonzero: a zero or missing length is rejected by [`DownloadProgress::begin`].
    pub total: u64,
    /// Bytes received so far.
    pub received: u64,
}

/// The figures recomputed after one chunk, for the progress display.
pub struct ChunkReport {
    /// Bytes received so far, this chunk included.
    pub received: u64,
    /// Percentage complete, rounded down; not clamped, so a response that
    /// overshoots the expected size reports more than 100.
    pub percent: u64,
    /// Bytes per second, computed over the bytes received *before* this
    /// chunk. Excluding the chunk just written is a deliberate quirk of the
    /// display — a rate over previously confirmed bytes — though whether it
    /// ought to include the chunk is an open question; the contract pins
    /// the exclusive form.
    pub throughput: u64,
}

/// Percentage complete as a mathematical integer: `received * 100 / total`,
/// rounded down.
pub open spec fn spec_percent(received: u64, total: u64) -> int
    recommends
        total > 0,
{
    (received * 100) / (total as int)
}

/// Elapsed seconds with a floor of one, so that throughput on a sub-second
/// transfer never divides by zero.
pub open spec fn spec_elapsed_floor(elapsed_secs: u64) -> u64 {
    if elapsed_secs == 0 {
        1u64
    } else {
        elapsed_secs
    }
}

impl DownloadProgress {
    /// A download is well formed exactly when its expected total is nonzero.
    pub open spec fn wf(&self) -> bool {
        self.total > 0
    }

    /// Starts tracking a download whose content-length header gave
    /// `content_length`. A missing length (`None`) or a zero length is a
    /// hard error: the progress model depends on a known, positive total.
    pub fn begin(content_length: Option<u64>) -> (r: Result<DownloadProgress, Error>)
        ensures
            match r {
                Ok(p) => {
                    &&& content_length == Some(p.total)
                    &&& p.total > 0
                    &&& p.received == 0
                    &&& p.wf()
                },
                Err(e) => {
                    &&& e == Error::ReqwestLength
                    &&& (content_length matches Some(n) ==> n == 0)
                    &&& (content_length is None || content_length == Some(0u64))
                },
            },
    {
        match content_length {
            Some(total) => {
                if total == 0 {
                    Err(Error::ReqwestLength)
                } else {
                    Ok(DownloadProgress { total, received: 0 })
                }
            },
            None => Err(Error::ReqwestLength),
        }
    }

    /// Records one received chunk of `chunk_len` bytes, `elapsed_secs` whole
    /// seconds after the download started, and returns the updated figures.
    ///
    /// The throughput numerator is the byte count from *before* this chunk,
    /// and the elapsed time is floored at one second.
    pub fn on_chunk(&mut self, chunk_len: usize, elapsed_secs: u64) -> (r: ChunkReport)
        requires
            old(self).wf(),
            old(self).received + chunk_len <= u64::MAX,
        ensures
            final(self).wf(),
            final(self).total == old(self).total,
            final(self).received == old(self).received + chunk_len,
            r.received == final(self).received,
            r.percent == if spec_percent(final(self).received, final(self).total) <= u64::MAX {
                spec_percent(final(self).received, final(self).total)
            } else {
                u64::MAX as int
            },
            r.throughput == old(self).received / spec_elapsed_floor(elapsed_secs),
    {
        let before: u64 = self.received;
        self.received = self.received + chunk_len as u64;
        let elapsed = if elapsed_secs == 0 {
            1u64
        } else {
            elapsed_secs
        };
        ChunkReport {
            received: self.received,
            percent: self.percent(),
            throughput: before / elapsed,
        }
    }

    /// Percentage complete so far, rounded down, saturating at `u64::MAX`
    /// (reachable only when the response overshoots a tiny expected size).
    pub fn percent(&self) -> (p: u64)
        requires
            self.wf(),
        ensures
            p == if spec_percent(self.received, self.total) <= u64::MAX {
                spec_percent(self.received, self.total)
            } else {
                u64::MAX as int
            },
    {
        let wide: u128 = (self.received as u128) * 100 / (self.total as u128);
        if wide > u64::MAX as u128 {
            u64::MAX
        } else {
            wide as u64
        }
    }

    /// True once at least the expected number of bytes has arrived.
    pub fn is_complete(&self) -> (b: bool)
        ensures
            b == (self.received >= self.total),
    {
        self.received >= self.total
    }
}

} // verus!
