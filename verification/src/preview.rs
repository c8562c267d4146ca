//! Decision rules of the cancellable single-shot preview fetch.
//!
//! The host races exactly one full-resolution fetch-and-decode against a
//! one-shot cancellation signal taken out before the fetch starts. Whichever
//! side resolves first is reported here as the [`RaceWinner`], and
//! [`resolve_preview_race`] decides what the preview screen does next; the
//! losing side is simply abandoned.

use vstd::prelude::*;

verus! {

/// How the fetch half of the race ended, if it won: the bytes arrived and
/// decoding them succeeded or failed, or the fetch itself failed.
#[derive(Debug, Clone, Copy, PartialEq, Eq, Structural)]
pub enum FetchResult {
    Fetched { decode_ok: bool },
    FetchError,
}

/// Which side of the race resolved first.
#[derive(Debug, Clone, Copy, PartialEq, Eq, Structural)]
pub enum RaceWinner {
    Fetch(FetchResult),
    Cancelled,
}

/// What the preview screen does next.
#[derive(Debug, Clone, Copy, PartialEq, Eq, Structural)]
pub enum PreviewOutcome {
    /// Show the decoded pixels.
    ShowDecoded,
    /// Decoding failed: hand the raw encoded bytes to the display layer and
    /// let it try, rather than failing outright.
    ShowRawBytes,
    /// The fetch failed; show the failure notice.
    PreviewFailed,
    /// The cancellation signal arrived first; leave preview mode entirely.
    PreviewCancelled,
}

/// The outcome each race winner maps to.
pub open spec fn race_outcome_spec(winner: RaceWinner) -> PreviewOutcome {
    match winner {
        RaceWinner::Cancelled => PreviewOutcome::PreviewCancelled,
        RaceWinner::Fetch(FetchResult::Fetched { decode_ok }) => if decode_ok {
            PreviewOutcome::ShowDecoded
        } else {
            PreviewOutcome::ShowRawBytes
        },
        RaceWinner::Fetch(FetchResult::FetchError) => PreviewOutcome::PreviewFailed,
    }
}

/// Resolve the race. A cancellation that arrived first yields the cancelled
/// outcome and nothing else does, so a cancelled preview is never shown and
/// never reported as failed; a decode failure degrades to the raw bytes.
pub fn resolve_preview_race(winner: &RaceWinner) -> (r: PreviewOutcome)
    ensures
        r == race_outcome_spec(*winner),
        (*winner is Cancelled) <==> r == PreviewOutcome::PreviewCancelled,
{
    match winner {
        RaceWinner::Cancelled => PreviewOutcome::PreviewCancelled,
        RaceWinner::Fetch(FetchResult::Fetched { decode_ok }) => {
            if *decode_ok {
                PreviewOutcome::ShowDecoded
            } else {
                PreviewOutcome::ShowRawBytes
            }
        },
        RaceWinner::Fetch(FetchResult::FetchError) => PreviewOutcome::PreviewFailed,
    }
}

} // verus!
