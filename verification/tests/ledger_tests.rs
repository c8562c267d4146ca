use wall_a_bunga::download_manager::requested_limit;
use wall_a_bunga::download_manager::DownloadManager;
use wall_a_bunga::transfer::DownloadStatus;

fn queue(m: &mut DownloadManager, id: &str) {
    m.queue_download(
        format!("https://example.test/{}.jpg", id),
        id.to_string(),
        format!("/tmp/{}.jpg", id),
    );
}

#[test]
fn len_counts_unique_ids() {
    let mut m = DownloadManager::default();
    assert_eq!(m.len(), 0);
    queue(&mut m, "a");
    assert_eq!(m.len(), 1);
    queue(&mut m, "b");
    assert_eq!(m.len(), 2);
    queue(&mut m, "c");
    assert_eq!(m.len(), 3);
}

#[test]
fn duplicate_id_overwrites_in_place() {
    let mut m = DownloadManager::default();
    queue(&mut m, "a");
    queue(&mut m, "b");
    m.queue_download(
        "https://example.test/other.jpg".to_string(),
        "a".to_string(),
        "/tmp/other.jpg".to_string(),
    );
    assert_eq!(m.len(), 2);
    let all = m.active_subset(10);
    assert_eq!(all.len(), 2);
    assert_eq!(all[0].id, "a");
    assert_eq!(all[0].url, "https://example.test/other.jpg");
    assert_eq!(all[1].id, "b");
}

#[test]
fn remove_decrements_once_per_present_id() {
    let mut m = DownloadManager::default();
    queue(&mut m, "a");
    queue(&mut m, "b");
    m.remove_download("a");
    assert_eq!(m.len(), 1);
    m.remove_download("a");
    assert_eq!(m.len(), 1);
    m.remove_download("missing");
    assert_eq!(m.len(), 1);
    m.remove_download("b");
    assert_eq!(m.len(), 0);
}

#[test]
fn finished_count_grows_on_every_remove() {
    let mut m = DownloadManager::default();
    assert_eq!(m.finished_count(), 0);
    queue(&mut m, "a");
    m.remove_download("a");
    assert_eq!(m.finished_count(), 1);
    m.remove_download("absent");
    assert_eq!(m.finished_count(), 2);
}

#[test]
fn active_subset_is_ordered_prefix() {
    let mut m = DownloadManager::default();
    queue(&mut m, "a");
    queue(&mut m, "b");
    queue(&mut m, "c");
    let two = m.active_subset(2);
    assert_eq!(two.len(), 2);
    assert_eq!(two[0].id, "a");
    assert_eq!(two[1].id, "b");
    let many = m.active_subset(10);
    assert_eq!(many.len(), 3);
    assert_eq!(many[2].id, "c");
    assert_eq!(m.len(), 3);
}

#[test]
fn admission_slot_passes_to_next_in_order() {
    let mut m = DownloadManager::default();
    queue(&mut m, "a");
    queue(&mut m, "b");
    let admitted = m.active_subset(1);
    assert_eq!(admitted.len(), 1);
    assert_eq!(admitted[0].id, "a");
    m.remove_download("a");
    let admitted = m.active_subset(1);
    assert_eq!(admitted.len(), 1);
    assert_eq!(admitted[0].id, "b");
}

#[test]
fn get_subscriptions_respects_limit() {
    let mut m = DownloadManager::default();
    for id in ["a", "b", "c", "d", "e", "f", "g"] {
        queue(&mut m, id);
    }
    let subs = m.get_subscriptions();
    assert_eq!(subs.len(), 5);
    assert_eq!(subs[0].id, "a");
    assert_eq!(subs[4].id, "e");
    m.set_concurrent_downloads(2);
    let subs = m.get_subscriptions();
    assert_eq!(subs.len(), 2);
    m.set_concurrent_downloads(9);
    let subs = m.get_subscriptions();
    assert_eq!(subs.len(), 7);
}

#[test]
fn apply_status_removes_only_on_terminal_reports() {
    let mut m = DownloadManager::default();
    queue(&mut m, "a");
    queue(&mut m, "b");
    m.apply_status(&DownloadStatus::Progress { id: "a".to_string(), downloaded: 10, total: 100 });
    assert_eq!(m.len(), 2);
    assert_eq!(m.finished_count(), 0);
    m.apply_status(&DownloadStatus::Failed { id: "a".to_string() });
    assert_eq!(m.len(), 1);
    assert_eq!(m.finished_count(), 1);
    m.apply_status(&DownloadStatus::Finished { id: "b".to_string() });
    assert_eq!(m.len(), 0);
    assert_eq!(m.finished_count(), 2);
}

#[test]
fn requested_limit_accepts_one_through_nine() {
    assert_eq!(requested_limit(0, 5), 5);
    assert_eq!(requested_limit(10, 5), 5);
    assert_eq!(requested_limit(-3, 5), 5);
    assert_eq!(requested_limit(1, 5), 1);
    assert_eq!(requested_limit(9, 5), 9);
    assert_eq!(requested_limit(6, 5), 6);
}
