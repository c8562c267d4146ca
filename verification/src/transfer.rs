//! The per-download transfer state machine.
//!
//! One value of [`DownloadState`] drives exactly one URL-to-file transfer.
//! The caller performs the outside work (the HTTP request, reading chunks,
//! creating and writing the destination file) and reports each outcome as a
//! [`TransferInput`]; [`transfer_step`] decides the next state, the status to
//! report, and which file-system action to perform next. All decisions are
//! specified by the pure transition function [`step_spec`].

use vstd::prelude::*;

verus! {

/// A progress or terminal report from a single transfer, tagged with the
/// transfer's correlation id. Progress carries the byte counts; the consumer
/// may display `downloaded / total` as a percentage, which can pass 100 when
/// the advertised length was smaller than the body actually sent.
#[derive(Debug, Clone)]
pub enum DownloadStatus {
    Progress { id: String, downloaded: u64, total: u64 },
    Failed { id: String },
    Finished { id: String },
}

/// Mathematical image of a [`DownloadStatus`].
pub enum DownloadStatusView {
    Progress { id: Seq<char>, downloaded: u64, total: u64 },
    Failed { id: Seq<char> },
    Finished { id: Seq<char> },
}

impl View for DownloadStatus {
    type V = DownloadStatusView;

    open spec fn view(&self) -> DownloadStatusView {
        match self {
            DownloadStatus::Progress { id, downloaded, total } => (DownloadStatusView::Progress {
                id: id@,
                downloaded: *downloaded,
                total: *total,
            }),
            DownloadStatus::Failed { id } => (DownloadStatusView::Failed { id: id@ }),
            DownloadStatus::Finished { id } => (DownloadStatusView::Finished { id: id@ }),
        }
    }
}

/// The state of one transfer. `Started` holds no resources. From `Opening`
/// onward the caller holds the open response stream, and from `Downloading`
/// onward also the open destination file; both are released when the machine
/// reaches `Completed`.
#[derive(Debug, Clone)]
pub enum DownloadState {
    /// Initial: nothing has been attempted yet.
    Started { url: String, id: String, save_path: String },
    /// The response arrived with a known byte length; the destination file is
    /// being created.
    Opening { total: u64, id: String, save_path: String },
    /// Body bytes are being pulled from the response stream.
    Downloading { total: u64, downloaded: u64, id: String, save_path: String },
    /// A chunk of `pending` bytes is being written to the destination file.
    Writing { total: u64, downloaded: u64, pending: u64, id: String, save_path: String },
    /// Terminal: no further status is ever reported.
    Completed,
}

/// Mathematical image of a [`DownloadState`].
pub enum DownloadStateView {
    Started { url: Seq<char>, id: Seq<char>, save_path: Seq<char> },
    Opening { total: u64, id: Seq<char>, save_path: Seq<char> },
    Downloading { total: u64, downloaded: u64, id: Seq<char>, save_path: Seq<char> },
    Writing { total: u64, downloaded: u64, pending: u64, id: Seq<char>, save_path: Seq<char> },
    Completed,
}

impl View for DownloadState {
    type V = DownloadStateView;

    open spec fn view(&self) -> DownloadStateView {
        match self {
            DownloadState::Started { url, id, save_path } => (DownloadStateView::Started {
                url: url@,
                id: id@,
                save_path: save_path@,
            }),
            DownloadState::Opening { total, id, save_path } => (DownloadStateView::Opening {
                total: *total,
                id: id@,
                save_path: save_path@,
            }),
            DownloadState::Downloading { total, downloaded, id, save_path } => (
            DownloadStateView::Downloading {
                total: *total,
                downloaded: *downloaded,
                id: id@,
                save_path: save_path@,
            }),
            DownloadState::Writing { total, downloaded, pending, id, save_path } => (
            DownloadStateView::Writing {
                total: *total,
                downloaded: *downloaded,
                pending: *pending,
                id: id@,
                save_path: save_path@,
            }),
            DownloadState::Completed => DownloadStateView::Completed,
        }
    }
}

/// The outcome of the one piece of outside work the machine last asked for.
#[derive(Debug, Clone, Copy)]
pub enum TransferInput {
    /// The HTTP request itself failed (DNS, connect, TLS, HTTP error).
    RequestFailed,
    /// The request succeeded; the response advertised `content_length` bytes,
    /// or did not advertise a length at all.
    RequestSucceeded { content_length: Option<u64> },
    /// The destination file was created (truncating any previous file).
    FileCreated,
    /// The destination file could not be created.
    FileCreateFailed,
    /// The next body chunk arrived, `len` bytes long.
    ChunkArrived { len: u64 },
    /// The body stream ended cleanly: no more chunks.
    StreamEnded,
    /// Reading the next chunk from the stream failed.
    ReadFailed,
    /// The pending chunk was written to the destination file.
    WriteSucceeded,
    /// Writing the pending chunk failed.
    WriteFailed,
}

/// What the caller must do next, besides reporting the returned status.
#[derive(Debug, Clone, Copy, PartialEq, Eq, Structural)]
pub enum TransferAction {
    /// Nothing beyond pulling the next input for the new state.
    Proceed,
    /// Create (truncate-or-create) the destination file.
    CreateFile,
    /// Write the chunk that just arrived to the destination file.
    WriteChunk,
    /// Delete the partially written destination file, best effort.
    DeleteFile,
}

/// The machine's answer to one input.
#[derive(Debug, Clone)]
pub struct StepResult {
    pub state: DownloadState,
    pub status: Option<DownloadStatus>,
    pub action: TransferAction,
}

impl View for StepResult {
    type V = (DownloadStateView, Option<DownloadStatusView>, TransferAction);

    open spec fn view(&self) -> (DownloadStateView, Option<DownloadStatusView>, TransferAction) {
        (
            self.state@,
            match self.status {
                Option::Some(st) => Option::Some(st@),
                Option::None => Option::None,
            },
            self.action,
        )
    }
}

/// `a + b` on `u64`, stopping at the top of the range instead of wrapping.
pub open spec fn sat_add_u64(a: u64, b: u64) -> u64 {
    if a + b <= u64::MAX {
        (a + b) as u64
    } else {
        u64::MAX
    }
}

/// The transition function of the transfer machine. An input that the current
/// state does not expect changes nothing; `Completed` in particular never
/// reports another status.
pub open spec fn step_spec(s: DownloadStateView, input: TransferInput) -> (
    DownloadStateView,
    Option<DownloadStatusView>,
    TransferAction,
) {
    match s {
        DownloadStateView::Started { url, id, save_path } => match input {
            TransferInput::RequestFailed => (
                DownloadStateView::Completed,
                Option::Some(DownloadStatusView::Failed { id }),
                TransferAction::Proceed,
            ),
            TransferInput::RequestSucceeded { content_length } => match content_length {
                Option::Some(total) => (
                    DownloadStateView::Opening { total, id, save_path },
                    Option::None,
                    TransferAction::CreateFile,
                ),
                Option::None => (
                    DownloadStateView::Completed,
                    Option::Some(DownloadStatusView::Failed { id }),
                    TransferAction::Proceed,
                ),
            },
            _ => (DownloadStateView::Started { url, id, save_path }, Option::None, TransferAction::Proceed),
        },
        DownloadStateView::Opening { total, id, save_path } => match input {
            TransferInput::FileCreated => (
                DownloadStateView::Downloading { total, downloaded: 0, id, save_path },
                Option::Some(DownloadStatusView::Progress { id, downloaded: 0, total }),
                TransferAction::Proceed,
            ),
            TransferInput::FileCreateFailed => (
                DownloadStateView::Completed,
                Option::Some(DownloadStatusView::Failed { id }),
                TransferAction::Proceed,
            ),
            _ => (DownloadStateView::Opening { total, id, save_path }, Option::None, TransferAction::Proceed),
        },
        DownloadStateView::Downloading { total, downloaded, id, save_path } => match input {
            TransferInput::ChunkArrived { len } => (
                DownloadStateView::Writing { total, downloaded, pending: len, id, save_path },
                Option::None,
                TransferAction::WriteChunk,
            ),
            TransferInput::StreamEnded => (
                DownloadStateView::Completed,
                Option::Some(DownloadStatusView::Finished { id }),
                TransferAction::Proceed,
            ),
            TransferInput::ReadFailed => (
                DownloadStateView::Completed,
                Option::Some(DownloadStatusView::Failed { id }),
                TransferAction::Proceed,
            ),
            _ => (
                DownloadStateView::Downloading { total, downloaded, id, save_path },
                Option::None,
                TransferAction::Proceed,
            ),
        },
        DownloadStateView::Writing { total, downloaded, pending, id, save_path } => match input {
            TransferInput::WriteSucceeded => (
                DownloadStateView::Downloading {
                    total,
                    downloaded: sat_add_u64(downloaded, pending),
                    id,
                    save_path,
                },
                Option::Some(DownloadStatusView::Progress {
                    id,
                    downloaded: sat_add_u64(downloaded, pending),
                    total,
                }),
                TransferAction::Proceed,
            ),
            TransferInput::WriteFailed => (
                DownloadStateView::Completed,
                Option::Some(DownloadStatusView::Failed { id }),
                TransferAction::DeleteFile,
            ),
            _ => (
                DownloadStateView::Writing { total, downloaded, pending, id, save_path },
                Option::None,
                TransferAction::Proceed,
            ),
        },
        DownloadStateView::Completed => (DownloadStateView::Completed, Option::None, TransferAction::Proceed),
    }
}

/// Feed one outside outcome to the machine.
pub fn transfer_step(state: DownloadState, input: &TransferInput) -> (r: StepResult)
    ensures
        r@ == step_spec(state@, *input),
{
    match state {
        DownloadState::Started { url, id, save_path } => match input {
            TransferInput::RequestFailed => StepResult {
                state: DownloadState::Completed,
                status: Some(DownloadStatus::Failed { id }),
                action: TransferAction::Proceed,
            },
            TransferInput::RequestSucceeded { content_length } => match content_length {
                Some(total) => StepResult {
                    state: DownloadState::Opening { total: *total, id, save_path },
                    status: None,
                    action: TransferAction::CreateFile,
                },
                None => StepResult {
                    state: DownloadState::Completed,
                    status: Some(DownloadStatus::Failed { id }),
                    action: TransferAction::Proceed,
                },
            },
            _ => StepResult {
                state: DownloadState::Started { url, id, save_path },
                status: None,
                action: TransferAction::Proceed,
            },
        },
        DownloadState::Opening { total, id, save_path } => match input {
            TransferInput::FileCreated => {
                let status = DownloadStatus::Progress { id: id.clone(), downloaded: 0, total };
                StepResult {
                    state: DownloadState::Downloading { total, downloaded: 0, id, save_path },
                    status: Some(status),
                    action: TransferAction::Proceed,
                }
            },
            TransferInput::FileCreateFailed => StepResult {
                state: DownloadState::Completed,
                status: Some(DownloadStatus::Failed { id }),
                action: TransferAction::Proceed,
            },
            _ => StepResult {
                state: DownloadState::Opening { total, id, save_path },
                status: None,
                action: TransferAction::Proceed,
            },
        },
        DownloadState::Downloading { total, downloaded, id, save_path } => match input {
            TransferInput::ChunkArrived { len } => StepResult {
                state: DownloadState::Writing { total, downloaded, pending: *len, id, save_path },
                status: None,
                action: TransferAction::WriteChunk,
            },
            TransferInput::StreamEnded => StepResult {
                state: DownloadState::Completed,
                status: Some(DownloadStatus::Finished { id }),
                action: TransferAction::Proceed,
            },
            TransferInput::ReadFailed => StepResult {
                state: DownloadState::Completed,
                status: Some(DownloadStatus::Failed { id }),
                action: TransferAction::Proceed,
            },
            _ => StepResult {
                state: DownloadState::Downloading { total, downloaded, id, save_path },
                status: None,
                action: TransferAction::Proceed,
            },
        },
        DownloadState::Writing { total, downloaded, pending, id, save_path } => match input {
            TransferInput::WriteSucceeded => {
                let new_downloaded: u64 = if downloaded <= u64::MAX - pending {
                    downloaded + pending
                } else {
                    u64::MAX
                };
                let status = DownloadStatus::Progress {
                    id: id.clone(),
                    downloaded: new_downloaded,
                    total,
                };
                StepResult {
                    state: DownloadState::Downloading {
                        total,
                        downloaded: new_downloaded,
                        id,
                        save_path,
                    },
                    status: Some(status),
                    action: TransferAction::Proceed,
                }
            },
            TransferInput::WriteFailed => StepResult {
                state: DownloadState::Completed,
                status: Some(DownloadStatus::Failed { id }),
                action: TransferAction::DeleteFile,
            },
            _ => StepResult {
                state: DownloadState::Writing { total, downloaded, pending, id, save_path },
                status: None,
                action: TransferAction::Proceed,
            },
        },
        DownloadState::Completed => StepResult {
            state: DownloadState::Completed,
            status: None,
            action: TransferAction::Proceed,
        },
    }
}

} // verus!
