use std::sync::Arc;
use std::time::Duration;

use bitcoin::secp256k1::{PublicKey, Secp256k1, SecretKey};
use lightning::util::wakers::Notifier;
use lightning_liquidity_queue::{MessageQueue, MessageQueueNotifierGuard};

fn peer(seed: u8) -> PublicKey {
    let secp = Secp256k1::new();
    let sk = SecretKey::from_slice(&[seed; 32]).unwrap();
    PublicKey::from_secret_key(&secp, &sk)
}

/// Whether the notifier was signalled since it was last waited on.
fn woken(n: &Notifier) -> bool {
    n.get_future().wait_timeout(Duration::from_millis(1))
}

/// Releases `g` into `q` and signals the queue's notifier when the release asks for it.
fn release_and_signal(g: MessageQueueNotifierGuard<&'static str>, q: &mut MessageQueue<&'static str>) -> bool {
    let notified = g.release(q);
    if notified {
        q.pending_msgs_notifier().notify();
    }
    notified
}

fn new_queue() -> (Arc<Notifier>, MessageQueue<&'static str>) {
    let n = Arc::new(Notifier::new());
    let q = MessageQueue::new(Arc::clone(&n));
    (n, q)
}

#[test]
fn two_messages_then_empty_guard() {
    let (n, mut q) = new_queue();
    let a = peer(1);
    let mut signals = 0;

    let mut g1 = q.notifier();
    g1.enqueue(&a, "msg1");
    g1.enqueue(&a, "msg2");
    if release_and_signal(g1, &mut q) {
        signals += 1;
    }
    assert_eq!(signals, 1);
    assert!(woken(&n));
    assert_eq!(q.get_and_clear_pending_msgs(), vec![(a, "msg1"), (a, "msg2")]);
    assert_eq!(q.get_and_clear_pending_msgs(), vec![]);

    let g2 = q.notifier();
    if release_and_signal(g2, &mut q) {
        signals += 1;
    }
    assert_eq!(signals, 1);
    assert!(!woken(&n));
    assert_eq!(q.get_and_clear_pending_msgs(), vec![]);
}

#[test]
fn new_queue_is_empty_and_quiet() {
    let (n, mut q) = new_queue();
    assert_eq!(q.get_and_clear_pending_msgs(), vec![]);
    assert!(!woken(&n));
}

#[test]
fn one_guard_keeps_enqueue_order() {
    let (_n, mut q) = new_queue();
    let (a, b, c) = (peer(1), peer(2), peer(3));
    let mut g = q.notifier();
    g.enqueue(&b, "first");
    g.enqueue(&a, "second");
    g.enqueue(&c, "third");
    g.enqueue(&b, "fourth");
    assert!(release_and_signal(g, &mut q));
    assert_eq!(
        q.get_and_clear_pending_msgs(),
        vec![(b, "first"), (a, "second"), (c, "third"), (b, "fourth")]
    );
}

#[test]
fn guards_release_in_release_order_without_loss() {
    let (n, mut q) = new_queue();
    let (a, b) = (peer(1), peer(2));
    let mut g1 = q.notifier();
    let mut g2 = q.notifier();
    let mut g3 = q.notifier();
    g1.enqueue(&a, "a1");
    g2.enqueue(&b, "b1");
    g1.enqueue(&a, "a2");
    g3.enqueue(&b, "c1");
    g2.enqueue(&b, "b2");
    g2.enqueue(&a, "b3");
    assert!(release_and_signal(g2, &mut q));
    assert!(release_and_signal(g1, &mut q));
    assert!(release_and_signal(g3, &mut q));
    assert!(woken(&n));
    let out = q.get_and_clear_pending_msgs();
    assert_eq!(out.len(), 6);
    assert_eq!(
        out,
        vec![(b, "b1"), (b, "b2"), (a, "b3"), (a, "a1"), (a, "a2"), (b, "c1")]
    );
}

#[test]
fn release_appends_behind_pending_entries() {
    let (_n, mut q) = new_queue();
    let a = peer(4);
    let mut g1 = q.notifier();
    g1.enqueue(&a, "old");
    assert!(release_and_signal(g1, &mut q));
    let mut g2 = q.notifier();
    g2.enqueue(&a, "new");
    assert!(release_and_signal(g2, &mut q));
    assert_eq!(q.get_and_clear_pending_msgs(), vec![(a, "old"), (a, "new")]);
}

#[test]
fn empty_release_keeps_pending_entries() {
    let (n, mut q) = new_queue();
    let a = peer(5);
    let mut g1 = q.notifier();
    g1.enqueue(&a, "kept");
    assert!(release_and_signal(g1, &mut q));
    assert!(woken(&n));
    let g2: MessageQueueNotifierGuard<&'static str> = q.notifier();
    assert!(!release_and_signal(g2, &mut q));
    assert!(!woken(&n));
    assert_eq!(q.get_and_clear_pending_msgs(), vec![(a, "kept")]);
}

#[test]
fn many_entries_signal_once() {
    let (n, mut q) = new_queue();
    let a = peer(6);
    let mut g = q.notifier();
    for _ in 0..100 {
        g.enqueue(&a, "m");
    }
    assert!(release_and_signal(g, &mut q));
    assert!(woken(&n));
    assert!(!woken(&n));
    assert_eq!(q.get_and_clear_pending_msgs().len(), 100);
}

#[test]
fn guard_reports_whether_it_holds_entries() {
    let (_n, mut q) = new_queue();
    let a = peer(7);
    let mut g = q.notifier();
    assert!(g.is_empty());
    g.enqueue(&a, "x");
    assert!(!g.is_empty());
    assert!(release_and_signal(g, &mut q));
}

#[test]
fn release_alone_does_not_signal() {
    let (n, mut q) = new_queue();
    let a = peer(8);
    let mut g = q.notifier();
    g.enqueue(&a, "quiet");
    assert!(g.release(&mut q));
    assert!(!woken(&n));
    assert!(Arc::ptr_eq(q.pending_msgs_notifier(), &n));
    q.pending_msgs_notifier().notify();
    assert!(woken(&n));
    assert_eq!(q.get_and_clear_pending_msgs(), vec![(a, "quiet")]);
}

#[test]
fn unbound_guard_releases_into_queue() {
    let (_n, mut q) = new_queue();
    let a = peer(9);
    let mut g: MessageQueueNotifierGuard<&'static str> = MessageQueueNotifierGuard::new();
    assert!(g.is_empty());
    g.enqueue(&a, "free");
    assert!(release_and_signal(g, &mut q));
    let empty: MessageQueueNotifierGuard<&'static str> = MessageQueueNotifierGuard::new();
    assert!(!empty.release(&mut q));
    assert_eq!(q.get_and_clear_pending_msgs(), vec![(a, "free")]);
}
