//! The download ledger and its admission controller.
//!
//! A [`DownloadManager`] owns the queue of not-yet-finished downloads in
//! insertion order, keyed by a unique caller-assigned id, together with the
//! concurrency limit. Admission is declarative: the transfers considered
//! running are exactly the first `concurrent_downloads` entries of the queue,
//! re-read by the host on every scheduling pass; removing a finished entry is
//! what lets the next queued one run.

use vstd::prelude::*;

use indexmap::IndexMap;
use std::collections::hash_map::RandomState;

use crate::ledger::entry_keys_distinct;
use crate::ledger::has_key;
use crate::ledger::key_index;
use crate::ledger::ledger_entries;
use crate::ledger::ledger_insert;
use crate::ledger::ledger_len;
use crate::ledger::ledger_new;
use crate::ledger::ledger_prefix;
use crate::ledger::ledger_remove;
use crate::transfer::DownloadStatus;
use crate::transfer::DownloadStatusView;

verus! {

/// One queued request to download a file: the remote url, the caller's
/// correlation id, and the destination path for the finished file.
#[derive(Debug, Clone)]
pub struct ImageDownload {
    pub url: String,
    pub id: String,
    pub save_path: String,
}

impl View for ImageDownload {
    type V = (Seq<char>, Seq<char>, Seq<char>);

    open spec fn view(&self) -> (Seq<char>, Seq<char>, Seq<char>) {
        (self.id@, self.url@, self.save_path@)
    }
}

/// The queue of pending and running downloads, plus the concurrency limit and
/// a display-only count of downloads that have reached a terminal status.
#[derive(Debug)]
pub struct DownloadManager {
    downloads: IndexMap<String, ImageDownload, RandomState>,
    finished_downloads: u64,
    concurrent_downloads: usize,
}

/// The id a status report retires, if it is terminal.
pub open spec fn terminal_id(status: DownloadStatusView) -> Option<Seq<char>> {
    match status {
        DownloadStatusView::Progress { .. } => Option::None,
        DownloadStatusView::Failed { id } => Option::Some(id),
        DownloadStatusView::Finished { id } => Option::Some(id),
    }
}

impl DownloadManager {
    /// The queued entries in scheduling order, each as `(id, url, save_path)`.
    pub closed spec fn entries(&self) -> Seq<(Seq<char>, Seq<char>, Seq<char>)> {
        ledger_entries(&self.downloads)
    }

    /// How many transfers may run at once.
    pub closed spec fn concurrency_limit(&self) -> usize {
        self.concurrent_downloads
    }

    /// How many downloads have reached a terminal status so far.
    pub closed spec fn finished(&self) -> u64 {
        self.finished_downloads
    }

    /// Every id is queued at most once.
    pub open spec fn wf(&self) -> bool {
        entry_keys_distinct(self.entries())
    }

    /// Queue a download, or replace the queued entry that already carries
    /// this id. A fresh id joins the end of the queue and grows the queue by
    /// one; a known id keeps its place, takes the new url and path, and
    /// leaves the length unchanged.
    pub fn queue_download(&mut self, url: String, id: String, save_path: String)
        ensures
            final(self).wf(),
            final(self).concurrency_limit() == old(self).concurrency_limit(),
            final(self).finished() == old(self).finished(),
            ({
                let before = old(self).entries();
                let after = final(self).entries();
                let entry = (id@, url@, save_path@);
                &&& has_key(before, id@) ==> after == before.update(key_index(before, id@), entry)
                    && after.len() == before.len()
                &&& !has_key(before, id@) ==> after == before.push(entry) && after.len()
                    == before.len() + 1
            }),
    {
        ledger_insert(&mut self.downloads, ImageDownload { url, id, save_path });
    }

    /// Drop the queued entry carrying this id, if any, and count one more
    /// finished download. A present id shrinks the queue by one and the
    /// entries around it keep their order; an absent id leaves the queue
    /// unchanged.
    pub fn remove_download(&mut self, id: &str)
        ensures
            final(self).wf(),
            final(self).concurrency_limit() == old(self).concurrency_limit(),
            final(self).finished() == (if old(self).finished() < u64::MAX {
                (old(self).finished() + 1) as u64
            } else {
                u64::MAX
            }),
            ({
                let before = old(self).entries();
                let after = final(self).entries();
                &&& has_key(before, id@) ==> after == before.remove(key_index(before, id@))
                    && after.len() + 1 == before.len()
                &&& !has_key(before, id@) ==> after == before
            }),
    {
        ledger_remove(&mut self.downloads, id);
        if self.finished_downloads < u64::MAX {
            self.finished_downloads = self.finished_downloads + 1;
        }
    }

    /// How many downloads are queued, running ones included.
    pub fn len(&self) -> (n: usize)
        ensures
            n == self.entries().len(),
    {
        ledger_len(&self.downloads)
    }

    /// How many downloads have reached a terminal status, for display.
    pub fn finished_count(&self) -> (n: u64)
        ensures
            n == self.finished(),
    {
        self.finished_downloads
    }

    /// The admission boundary: at most `limit` entries, in insertion order,
    /// from the front of the queue; fewer only when fewer are queued. The
    /// queue itself is not changed.
    pub fn active_subset(&self, limit: usize) -> (r: Vec<ImageDownload>)
        ensures
            r@.len() == vstd::math::min(limit as int, self.entries().len() as int),
            forall|i: int| 0 <= i < r@.len() ==> r@[i]@ == self.entries()[i],
    {
        ledger_prefix(&self.downloads, limit)
    }

    /// The transfers to run right now: the first `concurrent_downloads`
    /// entries of the queue. The host re-reads this on every scheduling pass
    /// and instantiates one transfer machine per returned entry.
    pub fn get_subscriptions(&self) -> (r: Vec<ImageDownload>)
        ensures
            r@.len() == vstd::math::min(
                self.concurrency_limit() as int,
                self.entries().len() as int,
            ),
            forall|i: int| 0 <= i < r@.len() ==> r@[i]@ == self.entries()[i],
    {
        self.active_subset(self.concurrent_downloads)
    }

    /// Replace the concurrency limit. The queue is untouched; the new limit
    /// takes effect on the next scheduling pass.
    pub fn set_concurrent_downloads(&mut self, concurrent_downloads: usize)
        ensures
            final(self).concurrency_limit() == concurrent_downloads,
            final(self).entries() == old(self).entries(),
            final(self).finished() == old(self).finished(),
            old(self).wf() ==> final(self).wf(),
    {
        self.concurrent_downloads = concurrent_downloads;
    }

    /// Consume one status report the way the host's event loop must: a
    /// progress report changes nothing, and a terminal report retires its id,
    /// freeing that admission slot for the next queued entry.
    pub fn apply_status(&mut self, status: &DownloadStatus)
        ensures
            final(self).concurrency_limit() == old(self).concurrency_limit(),
            terminal_id(status@) is None ==> *final(self) == *old(self),
            (terminal_id(status@) matches Option::Some(tid) ==> ({
                let before = old(self).entries();
                let after = final(self).entries();
                &&& final(self).wf()
                &&& has_key(before, tid) ==> after == before.remove(key_index(before, tid))
                    && after.len() + 1 == before.len()
                &&& !has_key(before, tid) ==> after == before
                &&& final(self).finished() == (if old(self).finished() < u64::MAX {
                    (old(self).finished() + 1) as u64
                } else {
                    u64::MAX
                })
            })),
    {
        match status {
            DownloadStatus::Progress { .. } => {},
            DownloadStatus::Failed { id } => self.remove_download(id.as_str()),
            DownloadStatus::Finished { id } => self.remove_download(id.as_str()),
        }
    }
}

impl Default for DownloadManager {
    /// A fresh manager: nothing queued, nothing finished, five downloads at
    /// a time.
    fn default() -> (r: Self)
        ensures
            r.entries() == Seq::<(Seq<char>, Seq<char>, Seq<char>)>::empty(),
            r.finished() == 0,
            r.concurrency_limit() == 5,
            r.wf(),
    {
        DownloadManager { downloads: ledger_new(), finished_downloads: 0, concurrent_downloads: 5 }
    }
}

/// The concurrency limit a change request yields: the host accepts a request
/// between one and nine and keeps the current value otherwise.
pub fn requested_limit(requested: i32, current: i32) -> (r: i32)
    ensures
        r == if 0 < requested < 10 {
            requested
        } else {
            current
        },
{
    if requested > 0 && requested < 10 {
        requested
    } else {
        current
    }
}

} // verus!

