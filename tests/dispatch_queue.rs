use wavefront_sentinel::dispatch::{DispatchQueue, Take};

fn run(t: Take<u32>) -> Option<u32> {
    match t {
        Take::Run(j) => Some(j),
        _ => None,
    }
}

#[test]
fn jobs_are_taken_once_in_submission_order() {
    for workers in 1usize..=4 {
        let mut q = DispatchQueue::new(workers);
        for j in 0u32..5 {
            q.submit(j);
        }
        let mut seen = Vec::new();
        for _ in 0..5 {
            seen.push(run(q.take()).unwrap());
        }
        assert_eq!(seen, vec![0, 1, 2, 3, 4]);
        assert!(matches!(q.take(), Take::Wait));
        assert_eq!(q.workers(), workers);
    }
}

#[test]
fn interleaved_submits_and_takes_deliver_each_job_once() {
    let mut q = DispatchQueue::new(2);
    let mut seen = Vec::new();
    q.submit(1u32);
    q.submit(2);
    seen.push(run(q.take()).unwrap());
    q.submit(3);
    seen.push(run(q.take()).unwrap());
    seen.push(run(q.take()).unwrap());
    assert!(matches!(q.take(), Take::Wait));
    q.submit(4);
    q.close();
    seen.push(run(q.take()).unwrap());
    assert!(matches!(q.take(), Take::Exit));
    assert_eq!(seen, vec![1, 2, 3, 4]);
}

#[test]
fn close_drains_pending_jobs_before_exit() {
    let mut q = DispatchQueue::new(3);
    q.submit(10u32);
    q.submit(20);
    assert!(q.is_open());
    q.close();
    assert!(!q.is_open());
    assert_eq!(run(q.take()), Some(10));
    assert_eq!(run(q.take()), Some(20));
    assert!(matches!(q.take(), Take::Exit));
    assert!(matches!(q.take(), Take::Exit));
}

#[test]
fn empty_open_queue_waits_and_closed_one_exits() {
    let mut q: DispatchQueue<u32> = DispatchQueue::new(1);
    assert!(matches!(q.take(), Take::Wait));
    q.close();
    assert!(matches!(q.take(), Take::Exit));
}

#[test]
fn workers_are_joined_in_index_order() {
    let mut q: DispatchQueue<u32> = DispatchQueue::new(3);
    q.close();
    assert_eq!(q.next_to_join(), Some(0));
    assert_eq!(q.next_to_join(), Some(1));
    assert_eq!(q.next_to_join(), Some(2));
    assert_eq!(q.next_to_join(), None);
    assert_eq!(q.next_to_join(), None);
}
