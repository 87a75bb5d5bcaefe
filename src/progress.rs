//! Download progress and the shared record of the current install attempt.

use vstd::prelude::*;

verus! {

/// Percentage of `total` that `downloaded` bytes make, rounded down and
/// capped at 100; an empty body counts as complete.
pub open spec fn percent_of(downloaded: nat, total: nat) -> nat {
    if total == 0 || downloaded >= total {
        100
    } else {
        (downloaded * 100) / total
    }
}

/// Progress through a download: the bytes received so far and, where the
/// response declared it, the expected length.
#[derive(Clone, Debug)]
pub struct DownloadProgress {
    pub bytes_downloaded: u64,
    pub total_bytes: Option<u64>,
    pub percent: u32,
    pub status: String,
}

impl DownloadProgress {
    pub open spec fn wf(&self) -> bool {
        &&& self.percent <= 100
        &&& match self.total_bytes {
            Some(t) => self.percent as nat == percent_of(self.bytes_downloaded as nat, t as nat),
            None => true,
        }
    }

    /// Progress at the start of a download whose response declared `total_bytes`.
    pub fn new(total_bytes: Option<u64>) -> (r: Self)
        ensures
            r.wf(),
            r.bytes_downloaded == 0,
            r.total_bytes == total_bytes,
            r.percent == match total_bytes {
                Some(t) => percent_of(0, t as nat),
                None => 0,
            },
    {
        let percent = match total_bytes {
            Some(t) => percent(0, t),
            None => 0,
        };
        DownloadProgress {
            bytes_downloaded: 0,
            total_bytes,
            percent,
            status: String::from_str("downloading"),
        }
    }

    /// Counts a received chunk of `len` bytes. The byte count saturates at
    /// the largest `u64`.
    pub fn record_chunk(&mut self, len: u64)
        requires
            old(self).wf(),
        ensures
            final(self).wf(),
            final(self).bytes_downloaded as int == if old(self).bytes_downloaded as int + len as int
                > u64::MAX as int {
                u64::MAX as int
            } else {
                old(self).bytes_downloaded as int + len as int
            },
            final(self).total_bytes == old(self).total_bytes,
            final(self).status == old(self).status,
            old(self).total_bytes is None ==> final(self).percent == old(self).percent,
            old(self).percent <= final(self).percent <= 100,
    {
        self.bytes_downloaded = self.bytes_downloaded.saturating_add(len);
        if let Some(t) = self.total_bytes {
            proof {
                lemma_percent_monotone(old(self).bytes_downloaded as nat, self.bytes_downloaded as nat, t as nat);
            }
            self.percent = percent(self.bytes_downloaded, t);
        }
    }

    /// Marks the transfer complete: the progress shows 100.
    pub fn finish(&mut self)
        ensures
            final(self).percent == 100,
            final(self).bytes_downloaded == old(self).bytes_downloaded,
            final(self).total_bytes == old(self).total_bytes,
            final(self).status@ == "extracting"@,
    {
        self.percent = 100;
        self.status = String::from_str("extracting");
    }
}

/// Integer percentage of `total` that `downloaded` makes, capped at 100.
pub fn percent(downloaded: u64, total: u64) -> (r: u32)
    ensures
        r as nat == percent_of(downloaded as nat, total as nat),
        r <= 100,
{
    if total == 0 || downloaded >= total {
        100
    } else {
        let scaled: u128 = (downloaded as u128) * 100;
        let r: u128 = scaled / (total as u128);
        proof {
            lemma_percent_bounded(downloaded as nat, total as nat);
        }
        r as u32
    }
}

/// A percentage never exceeds 100.
pub proof fn lemma_percent_bounded(downloaded: nat, total: nat)
    ensures
        percent_of(downloaded, total) <= 100,
{
    if total > 0 && downloaded < total {
        assert((downloaded * 100) / total <= 100) by (nonlinear_arith)
            requires
                downloaded < total,
                total > 0,
        ;
    }
}

/// More bytes never give a smaller percentage of the same total, and every
/// percentage lies in `[0, 100]`.
pub proof fn lemma_percent_monotone(d1: nat, d2: nat, total: nat)
    requires
        d1 <= d2,
    ensures
        percent_of(d1, total) <= percent_of(d2, total) <= 100,
{
    lemma_percent_bounded(d1, total);
    lemma_percent_bounded(d2, total);
    if total > 0 && d2 < total {
        assert((d1 * 100) / total <= (d2 * 100) / total) by (nonlinear_arith)
            requires
                d1 <= d2,
                total > 0,
        ;
    }
}

} // verus!
