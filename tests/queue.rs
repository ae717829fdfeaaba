use job_queue::{InMemQueue, Job, JobQueue, JobStatus, JobStore, QueueError};

#[test]
fn enqueue_test() {
    let j = Job::new(1, b"Hello, World!");
    let q = InMemQueue::new();

    match q.enqueue(j) {
        Ok(_) => println!("Job enqueueed successfully."),
        Err(e) => println!("Error {:?}", e),
    }

    let res_job = q.get(1);
    match res_job {
        Some(x) => assert_eq!(x.get_id(), 1),
        None => println!("NOOOOOO!"),
    }
}

#[test]
fn dequeue_test() {
    let j = Job::new(1, b"Hello, World!");
    let q = InMemQueue::new();

    match q.enqueue(j) {
        Ok(_) => println!("Job enqueueed successfully."),
        Err(e) => println!("Error {:?}", e),
    }

    assert_eq!(q.len(), 1);

    match q.dequeue(1) {
        Ok(_) => println!("Job dequeued successfully."),
        Err(e) => println!("Error {:?}", e),
    }

    assert_eq!(q.len(), 0);
}

#[test]
fn hello_world_round_trip() {
    let q = InMemQueue::new();
    assert_eq!(q.enqueue(Job::new(1, b"Hello, World!")), Ok(()));
    assert_eq!(q.len(), 1);
    let got = q.get(1).expect("job 1 is stored");
    assert_eq!(got.get_id(), 1);
    assert_eq!(got.payload(), b"Hello, World!");
    assert_eq!(*got.get_status(), JobStatus::PENDING);
    assert_eq!(q.dequeue(1), Ok(()));
    assert_eq!(q.len(), 0);
    assert_eq!(q.dequeue(1), Err(QueueError::NotFound(1)));
}

#[test]
fn len_counts_distinct_enqueues() {
    let q = InMemQueue::new();
    for id in 0..10u32 {
        q.enqueue(Job::new(id, &[id as u8])).unwrap();
    }
    assert_eq!(q.len(), 10);
    for id in 0..10u32 {
        let got = q.get(id).expect("every id is stored");
        assert_eq!(got.get_id(), id);
        assert_eq!(got.payload(), &[id as u8]);
    }
}

#[test]
fn dequeue_missing_id_reports_it() {
    let q = InMemQueue::new();
    q.enqueue(Job::new(3, b"x")).unwrap();
    assert_eq!(q.dequeue(7), Err(QueueError::NotFound(7)));
    assert_eq!(q.len(), 1);
}

#[test]
fn dequeue_on_empty_queue_fails() {
    let q = InMemQueue::new();
    assert_eq!(q.dequeue(0), Err(QueueError::NotFound(0)));
    assert_eq!(q.len(), 0);
}

#[test]
fn dequeue_removes_one_and_get_finds_none() {
    let q = InMemQueue::new();
    q.enqueue(Job::new(1, b"a")).unwrap();
    q.enqueue(Job::new(2, b"b")).unwrap();
    q.enqueue(Job::new(3, b"c")).unwrap();
    assert_eq!(q.dequeue(2), Ok(()));
    assert_eq!(q.len(), 2);
    assert!(q.get(2).is_none());
    assert_eq!(q.get(1).unwrap().payload(), b"a");
    assert_eq!(q.get(3).unwrap().payload(), b"c");
}

#[test]
fn get_is_not_destructive() {
    let q = InMemQueue::new();
    q.enqueue(Job::new(5, b"payload")).unwrap();
    for _ in 0..5 {
        assert_eq!(q.get(5).unwrap().get_id(), 5);
        assert_eq!(q.len(), 1);
    }
}

#[test]
fn get_missing_id_is_none() {
    let q = InMemQueue::new();
    assert!(q.get(42).is_none());
    q.enqueue(Job::new(1, b"")).unwrap();
    assert!(q.get(42).is_none());
}

#[test]
fn duplicate_ids_first_match_wins() {
    let q = InMemQueue::new();
    q.enqueue(Job::new(9, b"first")).unwrap();
    q.enqueue(Job::new(9, b"second")).unwrap();
    assert_eq!(q.get(9).unwrap().payload(), b"first");
    assert_eq!(q.dequeue(9), Ok(()));
    assert_eq!(q.len(), 1);
    assert_eq!(q.get(9).unwrap().payload(), b"second");
}

#[test]
fn fetched_copy_is_independent() {
    let q = InMemQueue::new();
    q.enqueue(Job::new_at(4, b"p", 100)).unwrap();
    let mut copy = q.get(4).unwrap();
    copy.update_heartbeat_at(500);
    assert_eq!(copy.heartbeat(), 500);
    assert_eq!(q.get(4).unwrap().heartbeat(), 100);
}

#[test]
fn new_job_is_pending_with_equal_times() {
    let j = Job::new(12, b"");
    assert_eq!(j.get_id(), 12);
    assert_eq!(*j.get_status(), JobStatus::PENDING);
    assert_eq!(j.timestamp(), j.heartbeat());
    assert!(j.payload().is_empty());
    assert!(j.timestamp() > 0);
}

#[test]
fn new_at_fixes_both_times() {
    let j = Job::new_at(u32::MAX, &[0, 255], 1_000);
    assert_eq!(j.get_id(), u32::MAX);
    assert_eq!(j.payload(), &[0, 255]);
    assert_eq!(j.timestamp(), 1_000);
    assert_eq!(j.heartbeat(), 1_000);
}

#[test]
fn heartbeat_moves_forward() {
    let mut j = Job::new_at(1, b"", 1_000);
    j.update_heartbeat_at(2_000);
    assert_eq!(j.heartbeat(), 2_000);
    assert_eq!(j.timestamp(), 1_000);
}

#[test]
fn heartbeat_never_moves_back() {
    let mut j = Job::new_at(1, b"", 1_000);
    j.update_heartbeat_at(3_000);
    j.update_heartbeat_at(2_000);
    assert_eq!(j.heartbeat(), 3_000);
    j.update_heartbeat_at(10);
    assert_eq!(j.heartbeat(), 3_000);
    assert_eq!(j.timestamp(), 1_000);
}

#[test]
fn heartbeat_by_clock_not_before_prior() {
    let mut j = Job::new(2, b"work");
    let before = j.heartbeat();
    j.update_heartbeat();
    assert!(j.heartbeat() >= before);
    assert!(j.heartbeat() >= j.timestamp());
    assert_eq!(j.payload(), b"work");
}

#[test]
fn clone_is_equal_copy() {
    let j = Job::new_at(8, b"abc", 77);
    let d = j.clone();
    assert_eq!(d.get_id(), 8);
    assert_eq!(d.payload(), b"abc");
    assert_eq!(d.timestamp(), 77);
    assert_eq!(d.heartbeat(), 77);
}

#[test]
fn store_keeps_insertion_order() {
    let mut s = JobStore::new();
    s.enqueue(Job::new_at(1, b"a", 1));
    s.enqueue(Job::new_at(2, b"b", 2));
    s.enqueue(Job::new_at(1, b"c", 3));
    assert_eq!(s.len(), 3);
    assert_eq!(s.get(1).unwrap().timestamp(), 1);
    assert_eq!(s.dequeue(1), Ok(()));
    assert_eq!(s.get(1).unwrap().timestamp(), 3);
    assert_eq!(s.dequeue(5), Err(QueueError::NotFound(5)));
    assert_eq!(s.len(), 2);
}

fn shareable<T: Send + Sync>() {}

#[test]
fn queue_can_be_shared_between_threads() {
    shareable::<InMemQueue>();
    let q = InMemQueue::new();
    let (a, b) = (&q, &q);
    for id in 0..4u32 {
        let via = if id % 2 == 0 { a } else { b };
        via.enqueue(Job::new(id, b"x")).unwrap();
    }
    assert_eq!(q.len(), 4);
    for id in 0..4u32 {
        assert_eq!(b.get(id).unwrap().get_id(), id);
    }
}
