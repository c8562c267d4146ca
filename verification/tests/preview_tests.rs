use wall_a_bunga::preview::resolve_preview_race;
use wall_a_bunga::preview::FetchResult;
use wall_a_bunga::preview::PreviewOutcome;
use wall_a_bunga::preview::RaceWinner;

#[test]
fn cancellation_wins_over_any_fetch() {
    let outcome = resolve_preview_race(&RaceWinner::Cancelled);
    assert_eq!(outcome, PreviewOutcome::PreviewCancelled);
    assert_ne!(outcome, PreviewOutcome::ShowDecoded);
    assert_ne!(outcome, PreviewOutcome::PreviewFailed);
}

#[test]
fn decoded_fetch_is_shown() {
    let outcome = resolve_preview_race(&RaceWinner::Fetch(FetchResult::Fetched {
        decode_ok: true,
    }));
    assert_eq!(outcome, PreviewOutcome::ShowDecoded);
}

#[test]
fn decode_failure_falls_back_to_raw_bytes() {
    let outcome = resolve_preview_race(&RaceWinner::Fetch(FetchResult::Fetched {
        decode_ok: false,
    }));
    assert_eq!(outcome, PreviewOutcome::ShowRawBytes);
}

#[test]
fn fetch_error_shows_the_failure_notice() {
    let outcome = resolve_preview_race(&RaceWinner::Fetch(FetchResult::FetchError));
    assert_eq!(outcome, PreviewOutcome::PreviewFailed);
}
