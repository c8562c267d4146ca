//! Core of a wallpaper downloader: a bounded queue of file transfers, a
//! per-transfer state machine that reports progress, and the decision rules
//! for a cancellable single-shot preview fetch.
//!
//! The surrounding application performs the network and file system work and
//! feeds the outcomes back in; everything that decides what happens next is
//! verified here.

pub mod download_manager;
pub mod ledger;
pub mod preview;
pub mod style;
pub mod transfer;
pub mod transfer_runs;
pub mod utils;
