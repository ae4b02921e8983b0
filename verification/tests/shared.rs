use guardcell::ref_count::{HandleEvent, RefCount};
use guardcell::shared::SharedOwnership;
use std::sync::atomic::{AtomicUsize, Ordering};
use std::sync::mpsc::channel;
use std::sync::Arc;
use threadpool::ThreadPool;

struct Probe {
    label: String,
    drops: Arc<AtomicUsize>,
}

impl Drop for Probe {
    fn drop(&mut self) {
        self.drops.fetch_add(1, Ordering::SeqCst);
    }
}

#[test]
fn handle_reads_the_wrapped_value() {
    let handle = SharedOwnership::new(41u64);
    assert_eq!(*handle.get(), 41);
    assert_eq!(*handle, 41);
}

#[test]
fn clone_leads_to_the_same_value() {
    let handle = SharedOwnership::new(String::from("bob"));
    let copy = handle.clone();
    assert_eq!(copy.get(), "bob");
    assert_eq!(handle.get(), "bob");
    let third = copy.clone();
    drop(copy);
    assert_eq!(third.get(), "bob");
}

#[test]
fn value_is_destroyed_once_with_the_last_handle() {
    let drops = Arc::new(AtomicUsize::new(0));
    let first = SharedOwnership::new(Probe { label: String::from("dave"), drops: drops.clone() });
    let clones: Vec<SharedOwnership<Probe>> = (0..5).map(|_| first.clone()).collect();
    drop(first);
    assert_eq!(drops.load(Ordering::SeqCst), 0);
    let mut left = clones.len();
    for handle in clones {
        assert_eq!(handle.get().label, "dave");
        assert_eq!(drops.load(Ordering::SeqCst), 0);
        drop(handle);
        left -= 1;
        assert_eq!(drops.load(Ordering::SeqCst), if left == 0 { 1 } else { 0 });
    }
    assert_eq!(drops.load(Ordering::SeqCst), 1);
}

#[test]
fn single_handle_destroys_on_drop() {
    let drops = Arc::new(AtomicUsize::new(0));
    let only = SharedOwnership::new(Probe { label: String::new(), drops: drops.clone() });
    assert_eq!(drops.load(Ordering::SeqCst), 0);
    drop(only);
    assert_eq!(drops.load(Ordering::SeqCst), 1);
}

#[test]
fn handles_dropped_on_other_threads_destroy_once() {
    let drops = Arc::new(AtomicUsize::new(0));
    let first = SharedOwnership::new(Probe { label: String::from("sam"), drops: drops.clone() });
    let pool = ThreadPool::new(4);
    let (sender, receiver) = channel();
    for _ in 0..8 {
        let handle = first.clone();
        let sender = sender.clone();
        pool.execute(move || {
            let seen = handle.get().label.clone();
            drop(handle);
            sender.send(seen).unwrap();
        });
    }
    for _ in 0..8 {
        assert_eq!(receiver.recv().unwrap(), "sam");
    }
    pool.join();
    assert_eq!(pool.panic_count(), 0);
    assert_eq!(drops.load(Ordering::SeqCst), 0);
    drop(first);
    assert_eq!(drops.load(Ordering::SeqCst), 1);
}

#[test]
fn handle_agrees_with_the_counting_rule() {
    let drops = Arc::new(AtomicUsize::new(0));
    let mut rule = RefCount::new();
    let first = SharedOwnership::new(Probe { label: String::from("dave"), drops: drops.clone() });
    let mut handles = vec![first];
    for _ in 0..3 {
        let copy = handles[0].clone();
        rule.retain();
        handles.push(copy);
    }
    assert_eq!(rule.strong_count(), 4);
    while let Some(handle) = handles.pop() {
        let before = drops.load(Ordering::SeqCst);
        drop(handle);
        let destroyed = rule.release();
        assert_eq!(drops.load(Ordering::SeqCst) - before, if destroyed { 1 } else { 0 });
    }
    assert_eq!(drops.load(Ordering::SeqCst), 1);
    assert!(!rule.is_alive());
}

fn run_on_handles_and_model(events: &[HandleEvent]) {
    let drops = Arc::new(AtomicUsize::new(0));
    let mut model = RefCount::new();
    let mut handles =
        vec![SharedOwnership::new(Probe { label: String::from("dave"), drops: drops.clone() })];
    let mut destroyed = 0;
    for event in events {
        if handles.is_empty() {
            assert!(!model.is_alive());
            break;
        }
        match event {
            HandleEvent::Clone => {
                let copy = handles[0].clone();
                model.retain();
                handles.push(copy);
            }
            HandleEvent::Drop => {
                drop(handles.pop());
                if model.release() {
                    destroyed += 1;
                }
            }
        }
        assert_eq!(model.strong_count(), handles.len() as u64);
        assert_eq!(drops.load(Ordering::SeqCst), destroyed);
        for handle in &handles {
            assert_eq!(handle.get().label, "dave");
        }
    }
}

#[test]
fn handles_and_model_agree_on_clones_then_drops() {
    run_on_handles_and_model(&[
        HandleEvent::Clone,
        HandleEvent::Clone,
        HandleEvent::Clone,
        HandleEvent::Drop,
        HandleEvent::Drop,
        HandleEvent::Drop,
        HandleEvent::Drop,
        HandleEvent::Clone,
    ]);
}

#[test]
fn handles_and_model_agree_on_interleaved_events() {
    run_on_handles_and_model(&[
        HandleEvent::Clone,
        HandleEvent::Drop,
        HandleEvent::Clone,
        HandleEvent::Clone,
        HandleEvent::Drop,
        HandleEvent::Clone,
        HandleEvent::Drop,
        HandleEvent::Drop,
        HandleEvent::Drop,
    ]);
}
