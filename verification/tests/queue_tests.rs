use runtime_bridge::errors::EnvError;
use runtime_bridge::queue::{JobMessage, JobQueue};

fn eval_message(n: u8) -> JobMessage {
    JobMessage::EvaluateModule { identifier: vec![n] }
}

#[test]
fn enqueue_numbers_jobs_by_arrival() {
    let mut q = JobQueue::new();
    for k in 0..5u8 {
        let id = q.enqueue(eval_message(k)).unwrap();
        assert_eq!(id, k as u64);
    }
    assert_eq!(q.pending.len(), 5);
}

#[test]
fn jobs_run_in_fifo_order_of_enqueue() {
    let mut q = JobQueue::new();
    let n: u64 = 1000;
    let mut positions: Vec<u64> = Vec::new();
    for k in 0..n {
        let id = q.enqueue(eval_message((k % 256) as u8)).unwrap();
        positions.push(id);
    }
    // Drive the loop to completion; each job appends its own queue position
    // to a shared log.
    let mut log: Vec<u64> = Vec::new();
    loop {
        match q.begin_next() {
            None => break,
            Some(job) => {
                log.push(job.id);
                assert!(q.finish_running());
            },
        }
    }
    assert_eq!(log.len(), n as usize);
    assert_eq!(log, positions);
    for w in log.windows(2) {
        assert!(w[0] < w[1], "execution log must be strictly monotonic");
    }
}

#[test]
fn no_job_starts_while_one_is_running() {
    let mut q = JobQueue::new();
    q.enqueue(eval_message(1)).unwrap();
    q.enqueue(eval_message(2)).unwrap();
    let first = q.begin_next();
    assert!(first.is_some());
    // Mutual exclusion: the loop holds a running job, nothing else starts.
    assert!(q.begin_next().is_none());
    assert!(q.begin_next().is_none());
    assert!(q.finish_running());
    let second = q.begin_next();
    assert!(second.is_some());
    assert_eq!(second.unwrap().id, 1);
}

#[test]
fn every_enqueued_job_executes_exactly_once() {
    let mut q = JobQueue::new();
    let n: u64 = 50;
    for k in 0..n {
        q.enqueue(eval_message((k % 256) as u8)).unwrap();
    }
    while let Some(_job) = q.begin_next() {
        q.finish_running();
    }
    assert_eq!(q.executed.len(), n as usize);
    for (i, id) in q.executed.iter().enumerate() {
        assert_eq!(*id, i as u64);
    }
    assert!(q.pending.is_empty());
    assert!(q.running.is_none());
}

#[test]
fn a_closed_queue_accepts_nothing_but_drains() {
    let mut q = JobQueue::new();
    q.enqueue(eval_message(1)).unwrap();
    q.enqueue(eval_message(2)).unwrap();
    q.stop_accepting();
    assert!(matches!(q.enqueue(eval_message(3)), Err(EnvError::Unavailable)));
    // Jobs accepted before the close still run to completion.
    let mut ran: u32 = 0;
    while let Some(_job) = q.begin_next() {
        ran += 1;
        q.finish_running();
    }
    assert_eq!(ran, 2);
}

#[test]
fn finishing_with_nothing_running_reports_false() {
    let mut q = JobQueue::new();
    assert!(!q.finish_running());
    q.enqueue(eval_message(1)).unwrap();
    assert!(!q.finish_running());
}
