use threadpool::job::Job;
use threadpool::priority::Priority;
use threadpool::queue::JobQueue;

fn job(priority: i8, tag: u32) -> Job<u32> {
    Job::new(Priority::new(priority), None, tag)
}

fn drain(q: &mut JobQueue<u32>) -> Vec<(i8, u32)> {
    let mut out = Vec::new();
    while let Some(j) = q.pop_max() {
        out.push((j.priority.value(), j.fun));
    }
    out
}

#[test]
fn empty_queue_pops_nothing() {
    let mut q: JobQueue<u32> = JobQueue::new();
    assert!(q.is_empty());
    assert_eq!(q.len(), 0);
    assert!(q.pop_max().is_none());
    assert!(q.is_empty());
}

#[test]
fn pop_max_yields_greatest_priority() {
    let mut q = JobQueue::new();
    q.push(job(1, 10));
    q.push(job(5, 50));
    q.push(job(-3, 30));
    q.push(job(4, 40));
    assert_eq!(q.len(), 4);
    assert_eq!(drain(&mut q), vec![(5, 50), (4, 40), (1, 10), (-3, 30)]);
    assert!(q.is_empty());
}

#[test]
fn single_job_comes_back() {
    let mut q = JobQueue::new();
    q.push(job(0, 7));
    assert_eq!(q.len(), 1);
    let j = q.pop_max().unwrap();
    assert_eq!((j.priority.value(), j.fun), (0, 7));
    assert!(q.pop_max().is_none());
}

#[test]
fn extreme_priorities_are_ordered() {
    let mut q = JobQueue::new();
    q.push(job(i8::MIN, 1));
    q.push(job(i8::MAX, 2));
    q.push(job(0, 3));
    assert_eq!(drain(&mut q), vec![(i8::MAX, 2), (0, 3), (i8::MIN, 1)]);
}

#[test]
fn ties_keep_every_job() {
    let mut q = JobQueue::new();
    for tag in 0..6u32 {
        q.push(job(2, tag));
    }
    q.push(job(3, 100));
    let out = drain(&mut q);
    assert_eq!(out.len(), 7);
    assert_eq!(out[0], (3, 100));
    let mut tags: Vec<u32> = out[1..].iter().map(|e| e.1).collect();
    tags.sort();
    assert_eq!(tags, vec![0, 1, 2, 3, 4, 5]);
    assert!(out[1..].iter().all(|e| e.0 == 2));
}

#[test]
fn ascending_pushes_drain_descending() {
    let mut q = JobQueue::new();
    for p in -20i8..=20 {
        q.push(job(p, (p as i32 + 100) as u32));
    }
    let out = drain(&mut q);
    let expected: Vec<(i8, u32)> =
        (-20i8..=20).rev().map(|p| (p, (p as i32 + 100) as u32)).collect();
    assert_eq!(out, expected);
}

#[test]
fn scrambled_pushes_drain_by_priority() {
    let mut q = JobQueue::new();
    let mut x: u32 = 12345;
    let mut pushed = Vec::new();
    for tag in 0..500u32 {
        x = x.wrapping_mul(1103515245).wrapping_add(12345);
        let p = ((x >> 16) % 256) as u8 as i8;
        pushed.push((p, tag));
        q.push(job(p, tag));
    }
    assert_eq!(q.len(), 500);
    let out = drain(&mut q);
    assert_eq!(out.len(), 500);
    for w in out.windows(2) {
        assert!(w[0].0 >= w[1].0);
    }
    let mut a = pushed.clone();
    let mut b = out.clone();
    a.sort();
    b.sort();
    assert_eq!(a, b);
}

#[test]
fn pushes_between_pops_are_served_in_turn() {
    let mut q = JobQueue::new();
    q.push(job(1, 1));
    q.push(job(3, 3));
    assert_eq!(q.pop_max().unwrap().fun, 3);
    q.push(job(2, 2));
    q.push(job(9, 9));
    assert_eq!(q.pop_max().unwrap().fun, 9);
    assert_eq!(q.pop_max().unwrap().fun, 2);
    assert_eq!(q.pop_max().unwrap().fun, 1);
    assert!(q.pop_max().is_none());
}

#[test]
fn clear_discards_everything() {
    let mut q = JobQueue::new();
    q.push(job(1, 1));
    q.push(job(2, 2));
    q.clear();
    assert!(q.is_empty());
    assert!(q.pop_max().is_none());
    q.push(job(4, 4));
    assert_eq!(q.pop_max().unwrap().fun, 4);
}

#[test]
fn job_reports_what_it_was_made_with() {
    let j = job(6, 60);
    assert_eq!(j.priority(), Priority::new(6));
    assert!(!j.is_cancelable());
    assert!(j.outranks(&job(5, 0)));
    assert!(!j.outranks(&job(6, 0)));
    assert!(!j.outranks(&job(7, 0)));
}
