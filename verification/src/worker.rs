//! The worker's decision: turning the outcome of the blocking external
//! calls into a status to publish and an optional title to send.

use vstd::prelude::*;

use crate::app::{AppModel, DownloadStatus};
use crate::tick::{POPUP_DURATION_MS, spec_drain, spec_expire, spec_observe};

verus! {

/// What the worker publishes for a finished download: the status that goes
/// into the shared cell, and the title that goes through the completion
/// channel — present only when the download succeeded and a title was
/// resolved.
pub open spec fn spec_worker(ok: bool, title: Option<Seq<char>>) -> (DownloadStatus, Option<
    Seq<char>,
>) {
    if ok {
        (DownloadStatus::Success, title)
    } else {
        (DownloadStatus::Failed, None)
    }
}

/// Decides what a finished worker reports: `Success` exactly when the
/// download succeeded, `Failed` otherwise, and a title to send exactly when
/// the download succeeded and the title resolution did. A title resolved
/// for a failed download is discarded; a failed title resolution after a
/// successful download is not an error, the send is simply skipped.
pub fn resolve_outcome(download_ok: bool, title: Result<String, ()>) -> (r: (
    DownloadStatus,
    Option<String>,
))
    ensures
        ({
            let (st, sent) = spec_worker(
                download_ok,
                match title {
                    Ok(t) => Some(t@),
                    Err(_) => None,
                },
            );
            r.0 == st && (match (r.1, sent) {
                (Some(u), Some(v)) => u@ == v,
                (None, None) => true,
                _ => false,
            })
        }),
{
    if download_ok {
        match title {
            Ok(t) => (DownloadStatus::Success, Some(t)),
            Err(_) => (DownloadStatus::Success, None),
        }
    } else {
        (DownloadStatus::Failed, None)
    }
}

/// Law: when the worker reports success with resolved title `title` while
/// the state shows a download in progress, the next tick that observes the
/// report and drains the channel appends exactly that one history entry,
/// shows `Success`, and arms the popup; once the display duration has
/// elapsed, the popup is hidden again.
pub proof fn lemma_success_with_title(s: AppModel, title: Seq<char>, t: u64, later: u64)
    requires
        s.status is Downloading,
        later >= t + POPUP_DURATION_MS,
    ensures
        ({
            let (st, sent) = spec_worker(true, Some(title));
            let s1 = spec_drain(spec_observe(s, st, t), sent);
            &&& s1.status is Success
            &&& s1.history == s.history.push(title)
            &&& s1.show_popup
            &&& !spec_expire(s1, later).show_popup
            &&& spec_expire(s1, later).history == s.history.push(title)
        }),
{
}

/// Law: when the worker reports success but the title resolution failed,
/// nothing goes through the channel — the next tick shows `Success` and
/// the history keeps exactly its old entries.
pub proof fn lemma_success_without_title(s: AppModel, t: u64)
    requires
        s.status is Downloading,
    ensures
        ({
            let (st, sent) = spec_worker(true, None);
            let s1 = spec_drain(spec_observe(s, st, t), sent);
            &&& st is Success
            &&& sent is None
            &&& s1.status is Success
            &&& s1.history == s.history
        }),
{
}

} // verus!
