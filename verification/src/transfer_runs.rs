//! Whole-run behaviour of the transfer machine.
//!
//! [`run_steps`] folds [`step_spec`] over a sequence of outside outcomes and
//! collects the reported statuses and requested actions. The proof functions
//! here state how complete runs behave: a clean download reports a
//! non-decreasing progress sequence that reaches the advertised total and ends
//! in one `Finished`; a request failure reports exactly one `Failed` and never
//! touches the destination file; a mid-stream write failure reports `Failed`
//! and asks for the partial file to be deleted.

use vstd::prelude::*;

use crate::transfer::step_spec;
use crate::transfer::DownloadStateView;
use crate::transfer::DownloadStatusView;
use crate::transfer::TransferAction;
use crate::transfer::TransferInput;

verus! {

/// The status is a `Progress` entry for this transfer and this advertised
/// total.
pub open spec fn progress_for(ev: DownloadStatusView, id: Seq<char>, total: u64) -> bool {
    &&& ev is Progress
    &&& ev->Progress_id == id
    &&& ev->Progress_total == total
}

/// The statuses reported by one step, as a sequence of length zero or one.
pub open spec fn status_seq(o: Option<DownloadStatusView>) -> Seq<DownloadStatusView> {
    match o {
        Option::Some(ev) => seq![ev],
        Option::None => Seq::empty(),
    }
}

/// Drive the machine through `inputs`, collecting the final state, the
/// reported statuses, and the requested actions.
pub open spec fn run_steps(s: DownloadStateView, inputs: Seq<TransferInput>) -> (
    DownloadStateView,
    Seq<DownloadStatusView>,
    Seq<TransferAction>,
)
    decreases inputs.len(),
{
    if inputs.len() == 0 {
        (s, Seq::<DownloadStatusView>::empty(), Seq::<TransferAction>::empty())
    } else {
        let first = step_spec(s, inputs[0]);
        let rest = run_steps(first.0, inputs.drop_first());
        (rest.0, status_seq(first.1) + rest.1, seq![first.2] + rest.2)
    }
}

/// A run over `a + b` is the run over `a` followed by the run over `b` from
/// where `a` left off.
pub proof fn lemma_run_concat(s: DownloadStateView, a: Seq<TransferInput>, b: Seq<TransferInput>)
    ensures
        run_steps(s, a + b).0 == run_steps(run_steps(s, a).0, b).0,
        run_steps(s, a + b).1 == run_steps(s, a).1 + run_steps(run_steps(s, a).0, b).1,
        run_steps(s, a + b).2 == run_steps(s, a).2 + run_steps(run_steps(s, a).0, b).2,
    decreases a.len(),
{
    if a.len() == 0 {
        assert(a + b =~= b);
        assert(run_steps(s, a).1 + run_steps(run_steps(s, a).0, b).1 =~= run_steps(s, b).1);
        assert(run_steps(s, a).2 + run_steps(run_steps(s, a).0, b).2 =~= run_steps(s, b).2);
    } else {
        let first = step_spec(s, a[0]);
        assert((a + b)[0] == a[0]);
        assert((a + b).drop_first() =~= a.drop_first() + b);
        lemma_run_concat(first.0, a.drop_first(), b);
        let ra = run_steps(first.0, a.drop_first());
        let rb = run_steps(ra.0, b);
        assert(status_seq(first.1) + (ra.1 + rb.1) =~= (status_seq(first.1) + ra.1) + rb.1);
        assert(seq![first.2] + (ra.2 + rb.2) =~= (seq![first.2] + ra.2) + rb.2);
    }
}

/// After `Completed`, no run ever reports another status.
pub proof fn lemma_completed_stays_quiet(inputs: Seq<TransferInput>)
    ensures
        run_steps(DownloadStateView::Completed, inputs).0 is Completed,
        run_steps(DownloadStateView::Completed, inputs).1 == Seq::<DownloadStatusView>::empty(),
    decreases inputs.len(),
{
    if inputs.len() > 0 {
        lemma_completed_stays_quiet(inputs.drop_first());
        assert(run_steps(DownloadStateView::Completed, inputs).1 =~= Seq::<
            DownloadStatusView,
        >::empty());
    }
}

/// The inputs of a body read in which every chunk is written successfully:
/// each chunk arrives and its write succeeds.
pub open spec fn chunk_inputs(chunks: Seq<u64>) -> Seq<TransferInput>
    decreases chunks.len(),
{
    if chunks.len() == 0 {
        Seq::<TransferInput>::empty()
    } else {
        seq![
            TransferInput::ChunkArrived { len: chunks[0] },
            TransferInput::WriteSucceeded,
        ] + chunk_inputs(chunks.drop_first())
    }
}

/// Total number of bytes in a sequence of chunks.
pub open spec fn chunk_sum(chunks: Seq<u64>) -> int
    decreases chunks.len(),
{
    if chunks.len() == 0 {
        0
    } else {
        chunks[0] + chunk_sum(chunks.drop_first())
    }
}

pub proof fn lemma_chunk_sum_nonneg(chunks: Seq<u64>)
    ensures
        chunk_sum(chunks) >= 0,
    decreases chunks.len(),
{
    if chunks.len() > 0 {
        lemma_chunk_sum_nonneg(chunks.drop_first());
    }
}

pub proof fn lemma_chunk_sum_concat(a: Seq<u64>, b: Seq<u64>)
    ensures
        chunk_sum(a + b) == chunk_sum(a) + chunk_sum(b),
    decreases a.len(),
{
    if a.len() == 0 {
        assert(a + b =~= b);
    } else {
        assert((a + b)[0] == a[0]);
        assert((a + b).drop_first() =~= a.drop_first() + b);
        lemma_chunk_sum_concat(a.drop_first(), b);
    }
}

/// Running totals never decrease.
pub proof fn lemma_chunk_sum_take_monotonic(chunks: Seq<u64>, k: int, l: int)
    requires
        0 <= k <= l <= chunks.len(),
    ensures
        chunk_sum(chunks.take(k)) <= chunk_sum(chunks.take(l)),
{
    assert(chunks.take(l) =~= chunks.take(k) + chunks.take(l).subrange(k, l));
    lemma_chunk_sum_concat(chunks.take(k), chunks.take(l).subrange(k, l));
    lemma_chunk_sum_nonneg(chunks.take(l).subrange(k, l));
}

/// The whole body fits below the running total's ceiling.
pub proof fn lemma_chunk_sum_take_bounded(chunks: Seq<u64>, k: int)
    requires
        0 <= k <= chunks.len(),
    ensures
        chunk_sum(chunks.take(k)) <= chunk_sum(chunks),
{
    lemma_chunk_sum_take_monotonic(chunks, k, chunks.len() as int);
    assert(chunks.take(chunks.len() as int) =~= chunks);
}

/// From `Downloading`, a body whose chunks all arrive and write successfully
/// reports one `Progress` per chunk, carrying the exact running byte count,
/// and then exactly one `Finished`; it never asks for the file to be deleted.
pub proof fn lemma_run_downloading_success(
    total: u64,
    downloaded: u64,
    id: Seq<char>,
    save_path: Seq<char>,
    chunks: Seq<u64>,
)
    requires
        downloaded + chunk_sum(chunks) <= u64::MAX,
    ensures
        ({
            let start = DownloadStateView::Downloading { total, downloaded, id, save_path };
            let r = run_steps(start, chunk_inputs(chunks) + seq![TransferInput::StreamEnded]);
            &&& r.0 is Completed
            &&& r.1.len() == chunks.len() + 1
            &&& (forall|k: int|
                0 <= k < chunks.len() ==> r.1[k] == (DownloadStatusView::Progress {
                    id,
                    downloaded: (downloaded + chunk_sum(chunks.take(k + 1))) as u64,
                    total,
                }))
            &&& r.1[chunks.len() as int] == (DownloadStatusView::Finished { id })
            &&& (forall|k: int| 0 <= k < r.2.len() ==> r.2[k] != TransferAction::DeleteFile)
        }),
    decreases chunks.len(),
{
    reveal_with_fuel(run_steps, 4);
    let start = DownloadStateView::Downloading { total, downloaded, id, save_path };
    if chunks.len() == 0 {
        let inputs = chunk_inputs(chunks) + seq![TransferInput::StreamEnded];
        assert(inputs =~= seq![TransferInput::StreamEnded]);
        assert(inputs.drop_first() =~= Seq::<TransferInput>::empty());
        let r = run_steps(start, inputs);
        assert(r.1 =~= seq![DownloadStatusView::Finished { id }]);
        assert(r.2 =~= seq![TransferAction::Proceed]);
    } else {
        let c0 = chunks[0];
        let rest = chunks.drop_first();
        lemma_chunk_sum_nonneg(rest);
        let next_downloaded = (downloaded + c0) as u64;
        let head = seq![TransferInput::ChunkArrived { len: c0 }, TransferInput::WriteSucceeded];
        let tail = chunk_inputs(rest) + seq![TransferInput::StreamEnded];
        let inputs = chunk_inputs(chunks) + seq![TransferInput::StreamEnded];
        assert(inputs =~= head + tail);
        lemma_run_concat(start, head, tail);

        // The two head inputs: the chunk is handed to the file writer, the
        // write succeeds, and the running count grows by the chunk's length.
        let writing = DownloadStateView::Writing { total, downloaded, pending: c0, id, save_path };
        let after = DownloadStateView::Downloading {
            total,
            downloaded: next_downloaded,
            id,
            save_path,
        };
        assert(head.drop_first() =~= seq![TransferInput::WriteSucceeded]);
        assert(head.drop_first().drop_first() =~= Seq::<TransferInput>::empty());
        assert(run_steps(writing, head.drop_first()).1 =~= seq![
            DownloadStatusView::Progress { id, downloaded: next_downloaded, total },
        ]);
        assert(run_steps(start, head).0 == after);
        assert(run_steps(start, head).1 =~= seq![
            DownloadStatusView::Progress { id, downloaded: next_downloaded, total },
        ]);
        assert(run_steps(start, head).2 =~= seq![
            TransferAction::WriteChunk,
            TransferAction::Proceed,
        ]);

        lemma_run_downloading_success(total, next_downloaded, id, save_path, rest);
        let r = run_steps(start, inputs);
        let rr = run_steps(after, tail);
        assert(r.1 == run_steps(start, head).1 + rr.1);
        assert(r.1.len() == chunks.len() + 1);

        // Re-index the tail's running totals against the full chunk list.
        assert forall|k: int| 0 <= k < chunks.len() implies r.1[k] == (DownloadStatusView::Progress {
            id,
            downloaded: (downloaded + chunk_sum(chunks.take(k + 1))) as u64,
            total,
        }) by {
            if k == 0 {
                assert(chunks.take(1) =~= seq![c0]);
                assert(chunk_sum(seq![c0]) == c0 + chunk_sum(seq![c0].drop_first()));
                assert(seq![c0].drop_first() =~= Seq::<u64>::empty());
            } else {
                assert(r.1[k] == rr.1[k - 1]);
                assert(chunks.take(k + 1) =~= seq![c0] + rest.take(k));
                lemma_chunk_sum_concat(seq![c0], rest.take(k));
                assert(chunk_sum(seq![c0]) == c0 + chunk_sum(seq![c0].drop_first()));
                assert(seq![c0].drop_first() =~= Seq::<u64>::empty());
                lemma_chunk_sum_take_bounded(rest, k);
            }
        }
        assert(r.1[chunks.len() as int] == rr.1[rest.len() as int]);
    }
}

/// A transfer whose request succeeds with a correct advertised length, whose
/// destination file is created, and whose whole body arrives and is written:
/// the reported statuses are `Progress` entries whose byte counts never
/// decrease and end exactly at the advertised total, followed by exactly one
/// `Finished`; the destination file is never deleted.
pub proof fn lemma_transfer_success(
    url: Seq<char>,
    id: Seq<char>,
    save_path: Seq<char>,
    total: u64,
    chunks: Seq<u64>,
)
    requires
        chunk_sum(chunks) == total,
    ensures
        ({
            let start = DownloadStateView::Started { url, id, save_path };
            let inputs = seq![
                TransferInput::RequestSucceeded { content_length: Option::Some(total) },
                TransferInput::FileCreated,
            ] + chunk_inputs(chunks) + seq![TransferInput::StreamEnded];
            let r = run_steps(start, inputs);
            &&& r.0 is Completed
            &&& r.1.len() == chunks.len() + 2
            &&& (forall|k: int| 0 <= k < r.1.len() - 1 ==> progress_for(r.1[k], id, total))
            &&& (forall|k: int, l: int|
                0 <= k <= l < r.1.len() - 1 ==> r.1[k]->Progress_downloaded
                    <= r.1[l]->Progress_downloaded)
            &&& r.1[r.1.len() - 2]->Progress_downloaded == total
            &&& r.1[r.1.len() - 1] == (DownloadStatusView::Finished { id })
            &&& (forall|k: int| 0 <= k < r.2.len() ==> r.2[k] != TransferAction::DeleteFile)
        }),
{
    reveal_with_fuel(run_steps, 4);
    let start = DownloadStateView::Started { url, id, save_path };
    let head = seq![
        TransferInput::RequestSucceeded { content_length: Option::Some(total) },
        TransferInput::FileCreated,
    ];
    let tail = chunk_inputs(chunks) + seq![TransferInput::StreamEnded];
    let inputs = head + chunk_inputs(chunks) + seq![TransferInput::StreamEnded];
    assert(inputs =~= head + tail);
    lemma_run_concat(start, head, tail);

    let opening = DownloadStateView::Opening { total, id, save_path };
    let downloading = DownloadStateView::Downloading { total, downloaded: 0, id, save_path };
    assert(head.drop_first() =~= seq![TransferInput::FileCreated]);
    assert(head.drop_first().drop_first() =~= Seq::<TransferInput>::empty());
    assert(run_steps(opening, head.drop_first()).1 =~= seq![
        DownloadStatusView::Progress { id, downloaded: 0, total },
    ]);
    assert(run_steps(start, head).0 == downloading);
    assert(run_steps(start, head).1 =~= seq![
        DownloadStatusView::Progress { id, downloaded: 0, total },
    ]);
    assert(run_steps(start, head).2 =~= seq![TransferAction::CreateFile, TransferAction::Proceed]);

    lemma_run_downloading_success(total, 0, id, save_path, chunks);
    let r = run_steps(start, inputs);
    let rr = run_steps(downloading, tail);
    assert(r.1 == run_steps(start, head).1 + rr.1);

    // Each reported byte count is a running total, and running totals are
    // monotonic and reach the full sum on the last chunk.
    assert forall|k: int| 0 <= k < r.1.len() - 1 implies progress_for(r.1[k], id, total)
        && r.1[k]->Progress_downloaded == chunk_sum(chunks.take(k)) by {
        if k == 0 {
            assert(chunks.take(0) =~= Seq::<u64>::empty());
        } else {
            assert(r.1[k] == rr.1[k - 1]);
            lemma_chunk_sum_take_bounded(chunks, k);
            lemma_chunk_sum_nonneg(chunks.take(k));
        }
    }
    assert forall|k: int, l: int| 0 <= k <= l < r.1.len() - 1 implies r.1[k]->Progress_downloaded
        <= r.1[l]->Progress_downloaded by {
        lemma_chunk_sum_take_monotonic(chunks, k, l);
        lemma_chunk_sum_nonneg(chunks.take(k));
        lemma_chunk_sum_take_bounded(chunks, l);
    }
    assert(chunks.take(chunks.len() as int) =~= chunks);
    assert(r.1[r.1.len() - 1] == rr.1[chunks.len() as int]);
}

/// A transfer whose request fails before any bytes are read reports exactly
/// one `Failed` and asks for no file-system action at all: the destination
/// file is never created.
pub proof fn lemma_transfer_request_failure(url: Seq<char>, id: Seq<char>, save_path: Seq<char>)
    ensures
        ({
            let start = DownloadStateView::Started { url, id, save_path };
            let r = run_steps(start, seq![TransferInput::RequestFailed]);
            &&& r.0 is Completed
            &&& r.1 == seq![DownloadStatusView::Failed { id }]
            &&& r.2 == seq![TransferAction::Proceed]
        }),
{
    reveal_with_fuel(run_steps, 3);
    let start = DownloadStateView::Started { url, id, save_path };
    let inputs = seq![TransferInput::RequestFailed];
    assert(inputs.drop_first() =~= Seq::<TransferInput>::empty());
    let r = run_steps(start, inputs);
    assert(r.1 =~= seq![DownloadStatusView::Failed { id }]);
    assert(r.2 =~= seq![TransferAction::Proceed]);
}

/// From `Downloading`, a body whose first chunks are written successfully and
/// whose next write fails: one `Progress` per successful chunk, then exactly
/// one `Failed`, and the final requested action deletes the partial file.
pub proof fn lemma_run_downloading_write_fail(
    total: u64,
    downloaded: u64,
    id: Seq<char>,
    save_path: Seq<char>,
    chunks: Seq<u64>,
    bad_len: u64,
)
    requires
        downloaded + chunk_sum(chunks) <= u64::MAX,
    ensures
        ({
            let start = DownloadStateView::Downloading { total, downloaded, id, save_path };
            let inputs = chunk_inputs(chunks) + seq![
                TransferInput::ChunkArrived { len: bad_len },
                TransferInput::WriteFailed,
            ];
            let r = run_steps(start, inputs);
            &&& r.0 is Completed
            &&& r.1.len() == chunks.len() + 1
            &&& (forall|k: int|
                0 <= k < chunks.len() ==> r.1[k] == (DownloadStatusView::Progress {
                    id,
                    downloaded: (downloaded + chunk_sum(chunks.take(k + 1))) as u64,
                    total,
                }))
            &&& r.1[chunks.len() as int] == (DownloadStatusView::Failed { id })
            &&& r.2.len() > 0
            &&& r.2[r.2.len() - 1] == TransferAction::DeleteFile
        }),
    decreases chunks.len(),
{
    reveal_with_fuel(run_steps, 4);
    let start = DownloadStateView::Downloading { total, downloaded, id, save_path };
    if chunks.len() == 0 {
        let inputs = chunk_inputs(chunks) + seq![
            TransferInput::ChunkArrived { len: bad_len },
            TransferInput::WriteFailed,
        ];
        assert(inputs =~= seq![
            TransferInput::ChunkArrived { len: bad_len },
            TransferInput::WriteFailed,
        ]);
        assert(inputs.drop_first() =~= seq![TransferInput::WriteFailed]);
        assert(inputs.drop_first().drop_first() =~= Seq::<TransferInput>::empty());
        let r = run_steps(start, inputs);
        assert(r.1 =~= seq![DownloadStatusView::Failed { id }]);
        assert(r.2 =~= seq![TransferAction::WriteChunk, TransferAction::DeleteFile]);
    } else {
        let c0 = chunks[0];
        let rest = chunks.drop_first();
        lemma_chunk_sum_nonneg(rest);
        let next_downloaded = (downloaded + c0) as u64;
        let head = seq![TransferInput::ChunkArrived { len: c0 }, TransferInput::WriteSucceeded];
        let tail = chunk_inputs(rest) + seq![
            TransferInput::ChunkArrived { len: bad_len },
            TransferInput::WriteFailed,
        ];
        let inputs = chunk_inputs(chunks) + seq![
            TransferInput::ChunkArrived { len: bad_len },
            TransferInput::WriteFailed,
        ];
        assert(inputs =~= head + tail);
        lemma_run_concat(start, head, tail);

        let writing = DownloadStateView::Writing { total, downloaded, pending: c0, id, save_path };
        let after = DownloadStateView::Downloading {
            total,
            downloaded: next_downloaded,
            id,
            save_path,
        };
        assert(head.drop_first() =~= seq![TransferInput::WriteSucceeded]);
        assert(head.drop_first().drop_first() =~= Seq::<TransferInput>::empty());
        assert(run_steps(writing, head.drop_first()).1 =~= seq![
            DownloadStatusView::Progress { id, downloaded: next_downloaded, total },
        ]);
        assert(run_steps(start, head).0 == after);
        assert(run_steps(start, head).1 =~= seq![
            DownloadStatusView::Progress { id, downloaded: next_downloaded, total },
        ]);
        assert(run_steps(start, head).2 =~= seq![
            TransferAction::WriteChunk,
            TransferAction::Proceed,
        ]);

        lemma_run_downloading_write_fail(total, next_downloaded, id, save_path, rest, bad_len);
        let r = run_steps(start, inputs);
        let rr = run_steps(after, tail);
        assert(r.1 == run_steps(start, head).1 + rr.1);
        assert(r.1.len() == chunks.len() + 1);

        assert forall|k: int| 0 <= k < chunks.len() implies r.1[k] == (DownloadStatusView::Progress {
            id,
            downloaded: (downloaded + chunk_sum(chunks.take(k + 1))) as u64,
            total,
        }) by {
            if k == 0 {
                assert(chunks.take(1) =~= seq![c0]);
                assert(chunk_sum(seq![c0]) == c0 + chunk_sum(seq![c0].drop_first()));
                assert(seq![c0].drop_first() =~= Seq::<u64>::empty());
            } else {
                assert(r.1[k] == rr.1[k - 1]);
                assert(chunks.take(k + 1) =~= seq![c0] + rest.take(k));
                lemma_chunk_sum_concat(seq![c0], rest.take(k));
                assert(chunk_sum(seq![c0]) == c0 + chunk_sum(seq![c0].drop_first()));
                assert(seq![c0].drop_first() =~= Seq::<u64>::empty());
                lemma_chunk_sum_take_bounded(rest, k);
            }
        }
        assert(r.1[chunks.len() as int] == rr.1[rest.len() as int]);
        assert(r.2 == run_steps(start, head).2 + rr.2);
        assert(r.2[r.2.len() - 1] == rr.2[rr.2.len() - 1]);
    }
}

/// A transfer whose request succeeds, whose destination file is created, and
/// whose write fails on a later chunk: the statuses are `Progress` entries
/// followed by exactly one `Failed`, and the final requested action deletes
/// the partial destination file.
pub proof fn lemma_transfer_write_failure(
    url: Seq<char>,
    id: Seq<char>,
    save_path: Seq<char>,
    total: u64,
    chunks: Seq<u64>,
    bad_len: u64,
)
    requires
        chunk_sum(chunks) <= u64::MAX,
    ensures
        ({
            let start = DownloadStateView::Started { url, id, save_path };
            let inputs = seq![
                TransferInput::RequestSucceeded { content_length: Option::Some(total) },
                TransferInput::FileCreated,
            ] + chunk_inputs(chunks) + seq![
                TransferInput::ChunkArrived { len: bad_len },
                TransferInput::WriteFailed,
            ];
            let r = run_steps(start, inputs);
            &&& r.0 is Completed
            &&& r.1.len() == chunks.len() + 2
            &&& (forall|k: int| 0 <= k < r.1.len() - 1 ==> progress_for(r.1[k], id, total))
            &&& r.1[r.1.len() - 1] == (DownloadStatusView::Failed { id })
            &&& r.2.len() > 0
            &&& r.2[r.2.len() - 1] == TransferAction::DeleteFile
        }),
{
    reveal_with_fuel(run_steps, 4);
    let start = DownloadStateView::Started { url, id, save_path };
    let head = seq![
        TransferInput::RequestSucceeded { content_length: Option::Some(total) },
        TransferInput::FileCreated,
    ];
    let tail = chunk_inputs(chunks) + seq![
        TransferInput::ChunkArrived { len: bad_len },
        TransferInput::WriteFailed,
    ];
    let inputs = head + chunk_inputs(chunks) + seq![
        TransferInput::ChunkArrived { len: bad_len },
        TransferInput::WriteFailed,
    ];
    assert(inputs =~= head + tail);
    lemma_run_concat(start, head, tail);

    let opening = DownloadStateView::Opening { total, id, save_path };
    let downloading = DownloadStateView::Downloading { total, downloaded: 0, id, save_path };
    assert(head.drop_first() =~= seq![TransferInput::FileCreated]);
    assert(head.drop_first().drop_first() =~= Seq::<TransferInput>::empty());
    assert(run_steps(opening, head.drop_first()).1 =~= seq![
        DownloadStatusView::Progress { id, downloaded: 0, total },
    ]);
    assert(run_steps(start, head).0 == downloading);
    assert(run_steps(start, head).1 =~= seq![
        DownloadStatusView::Progress { id, downloaded: 0, total },
    ]);
    assert(run_steps(start, head).2 =~= seq![TransferAction::CreateFile, TransferAction::Proceed]);

    lemma_run_downloading_write_fail(total, 0, id, save_path, chunks, bad_len);
    let r = run_steps(start, inputs);
    let rr = run_steps(downloading, tail);
    assert(r.1 == run_steps(start, head).1 + rr.1);
    assert forall|k: int| 0 <= k < r.1.len() - 1 implies progress_for(r.1[k], id, total) by {
        if k > 0 {
            assert(r.1[k] == rr.1[k - 1]);
        }
    }
    assert(r.1[r.1.len() - 1] == rr.1[chunks.len() as int]);
    assert(r.2 == run_steps(start, head).2 + rr.2);
    assert(r.2[r.2.len() - 1] == rr.2[rr.2.len() - 1]);
}

} // verus!
