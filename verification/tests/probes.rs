use ptt_app::probes::{PinnedProbe, ProbeQueue};

fn probe(from: &str, to: &str, reason: &str) -> PinnedProbe {
    PinnedProbe {
        from_asset_id: from.to_owned(),
        to_asset_id: to.to_owned(),
        reason: reason.to_owned(),
    }
}

fn pairs(queue: &ProbeQueue) -> Vec<(String, String)> {
    queue
        .entries()
        .iter()
        .map(|entry| (entry.from_asset_id.clone(), entry.to_asset_id.clone()))
        .collect()
}

fn pair(from: &str, to: &str) -> (String, String) {
    (from.to_owned(), to.to_owned())
}

#[test]
fn a_probe_matches_only_its_own_direction() {
    let p = probe("chaos", "divine", "thin book");
    assert!(p.matches("chaos", "divine"));
    assert!(!p.matches("divine", "chaos"));
    assert!(!p.matches("chaos", "exalted"));
}

#[test]
fn pinning_puts_the_pair_in_front_once() {
    let mut queue = ProbeQueue::new();
    queue.pin(probe("a", "b", "first"));
    queue.pin(probe("c", "d", "second"));
    assert_eq!(pairs(&queue), vec![pair("c", "d"), pair("a", "b")]);
    queue.pin(probe("a", "b", "again"));
    assert_eq!(pairs(&queue), vec![pair("a", "b"), pair("c", "d")]);
    assert_eq!(queue.entries()[0].reason, "again", "the newer reason is the one kept");
    assert!(queue.is_pinned("c", "d"));
    assert!(!queue.is_pinned("d", "c"));
}

#[test]
fn pinning_twice_is_pinning_once() {
    let mut once = ProbeQueue::new();
    once.pin(probe("x", "y", "r"));
    once.pin(probe("a", "b", "r"));
    let mut twice = ProbeQueue::new();
    twice.pin(probe("x", "y", "r"));
    twice.pin(probe("a", "b", "r"));
    twice.pin(probe("a", "b", "r"));
    assert_eq!(pairs(&once), pairs(&twice));
}

#[test]
fn unpinning_takes_the_pair_off() {
    let mut queue = ProbeQueue::default();
    queue.pin(probe("a", "b", "r"));
    queue.pin(probe("c", "d", "r"));
    queue.unpin("a", "b");
    assert_eq!(pairs(&queue), vec![pair("c", "d")]);
    queue.unpin("a", "b");
    assert_eq!(pairs(&queue), vec![pair("c", "d")]);
}

#[test]
fn answered_pairs_leave_the_queue_on_their_own() {
    let mut queue = ProbeQueue::new();
    queue.pin(probe("a", "b", "r"));
    queue.pin(probe("c", "d", "r"));
    queue.pin(probe("e", "f", "r"));
    queue.retain_missing(&[pair("a", "b"), pair("e", "f"), pair("x", "y")]);
    assert_eq!(pairs(&queue), vec![pair("e", "f"), pair("a", "b")]);
    queue.retain_missing(&[]);
    assert!(queue.entries().is_empty());
}
