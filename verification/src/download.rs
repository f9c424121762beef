//! The download stage: descriptors, destination paths, the content-integrity
//! check on archive bodies, and the counting of in-flight transfer permits.
//!
//! The network itself is driven outside the library; everything the driver
//! decides — whether a response body is acceptable, where a file lands, and
//! whether a transfer may start under the global cap — is decided here.

use vstd::prelude::*;

use crate::strutil::ends_with;
use crate::strutil::str_ends_with;

verus! {

/// Ghost image of a download descriptor.
pub ghost struct DownloadV {
    pub store: Seq<char>,
    pub path: Seq<char>,
    pub headers: Option<Seq<(Seq<char>, Seq<char>)>>,
    pub dest: Seq<char>,
}

/// One file to fetch: produced once by an adapter, consumed once by the
/// downloader.
pub struct Download {
    pub store: String,
    pub path: String,
    pub headers: Option<Vec<(String, String)>>,
    pub dest: String,
}

impl View for Download {
    type V = DownloadV;

    open spec fn view(&self) -> DownloadV {
        DownloadV {
            store: self.store@,
            path: self.path@,
            headers: match self.headers {
                Some(h) => Some(h@.map_values(|p: (String, String)| (p.0@, p.1@))),
                None => None,
            },
            dest: self.dest@,
        }
    }
}

pub open spec fn dl_views(s: Seq<Download>) -> Seq<DownloadV> {
    s.map_values(|d: Download| d@)
}

/// The destination is a pure function of the source name and the filename;
/// reruns overwrite in place.
pub fn dest_path(source_name: &str, filename: &str) -> (r: String)
    ensures
        r@ == "data_raw/"@ + source_name@ + "/"@ + filename@,
{
    let mut s = String::new();
    s.append("data_raw/");
    s.append(source_name);
    s.append("/");
    s.append(filename);
    proof {
        assert(s@ =~= "data_raw/"@ + source_name@ + "/"@ + filename@);
    }
    s
}

// ---------------------------------------------------------------------------
// Content integrity.
// ---------------------------------------------------------------------------

/// A destination name that implies a compressed archive.
pub open spec fn is_archive_dest(dest: Seq<char>) -> bool {
    ends_with(dest, "gz"@)
}

/// The two accepted leading byte pairs: gzip, and the zip container one
/// portal serves under a `.gz` name.
pub open spec fn has_archive_magic(b: Seq<u8>) -> bool {
    b.len() >= 2 && ((b[0] == 0x1fu8 && b[1] == 0x8bu8) || (b[0] == 0x50u8 && b[1] == 0x4bu8))
}

/// Whether a fetched body may be written to `dest`. For an archive-destined
/// body longer than two bytes the leading bytes must be a known magic
/// number; a mismatch is transient — the portal served an error page — and
/// the descriptor is retried.
pub open spec fn spec_accept_body(dest: Seq<char>, b: Seq<u8>) -> bool {
    !(is_archive_dest(dest) && b.len() > 2 && !has_archive_magic(b))
}

pub fn accept_body(dest: &str, body: &Vec<u8>) -> (r: bool)
    ensures
        r == spec_accept_body(dest@, body@),
{
    if !str_ends_with(dest, "gz") {
        return true;
    }
    if body.len() <= 2 {
        return true;
    }
    let b0 = body[0];
    let b1 = body[1];
    (b0 == 0x1f && b1 == 0x8b) || (b0 == 0x50 && b1 == 0x4b)
}

/// What one fetch attempt produced: nothing (connect, timeout, status or
/// read failure), or a full body.
pub enum FetchOutcome {
    Failed,
    Body(Vec<u8>),
}

/// What the driver must do with the attempt.
#[derive(PartialEq, Eq, Structural, Copy, Clone, Debug)]
pub enum FetchDecision {
    Retry,
    Write,
}

pub open spec fn spec_decide_fetch(dest: Seq<char>, outcome: &FetchOutcome) -> FetchDecision {
    match outcome {
        FetchOutcome::Failed => FetchDecision::Retry,
        FetchOutcome::Body(b) => if spec_accept_body(dest, b@) {
            FetchDecision::Write
        } else {
            FetchDecision::Retry
        },
    }
}

/// Every failure is transient: the same descriptor is retried, with backoff,
/// and a body is written exactly when its leading bytes pass the archive
/// check.
pub fn decide_fetch(dest: &str, outcome: &FetchOutcome) -> (r: FetchDecision)
    ensures
        r == spec_decide_fetch(dest@, outcome),
{
    match outcome {
        FetchOutcome::Failed => FetchDecision::Retry,
        FetchOutcome::Body(b) => {
            if accept_body(dest, b) {
                FetchDecision::Write
            } else {
                FetchDecision::Retry
            }
        },
    }
}

// ---------------------------------------------------------------------------
// The global transfer cap.
// ---------------------------------------------------------------------------

/// The book-keeping of the shared counting semaphore: one permit per
/// in-flight transfer, never more than the cap. Passed down explicitly so
/// the cap stays testable and several pipelines can coexist in a process.
pub struct PermitCounter {
    limit: usize,
    in_flight: usize,
}

impl PermitCounter {
    pub closed spec fn spec_limit(&self) -> int {
        self.limit as int
    }

    pub closed spec fn spec_in_flight(&self) -> int {
        self.in_flight as int
    }

    /// No more transfers are in flight than the cap allows.
    pub open spec fn wf(&self) -> bool {
        0 <= self.spec_in_flight() <= self.spec_limit()
    }

    pub fn new(limit: usize) -> (r: PermitCounter)
        ensures
            r.wf(),
            r.spec_limit() == limit,
            r.spec_in_flight() == 0,
    {
        PermitCounter { limit, in_flight: 0 }
    }

    /// Takes a permit when one is free; refuses — leaving the count as it
    /// was — when the cap is reached.
    pub fn try_acquire(&mut self) -> (ok: bool)
        requires
            old(self).wf(),
        ensures
            final(self).wf(),
            final(self).spec_limit() == old(self).spec_limit(),
            ok == (old(self).spec_in_flight() < old(self).spec_limit()),
            ok ==> final(self).spec_in_flight() == old(self).spec_in_flight() + 1,
            !ok ==> final(self).spec_in_flight() == old(self).spec_in_flight(),
    {
        if self.in_flight < self.limit {
            self.in_flight = self.in_flight + 1;
            true
        } else {
            false
        }
    }

    /// Returns a permit; called after every attempt, failed ones included.
    pub fn release(&mut self)
        requires
            old(self).wf(),
            old(self).spec_in_flight() > 0,
        ensures
            final(self).wf(),
            final(self).spec_limit() == old(self).spec_limit(),
            final(self).spec_in_flight() == old(self).spec_in_flight() - 1,
    {
        self.in_flight = self.in_flight - 1;
    }

    pub fn in_flight(&self) -> (n: usize)
        ensures
            n == self.spec_in_flight(),
    {
        self.in_flight
    }

    pub fn limit(&self) -> (n: usize)
        ensures
            n == self.spec_limit(),
    {
        self.limit
    }
}

} // verus!
