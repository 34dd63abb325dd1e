use mochify::batch::{initial_in_flight, progress_message, start_message, BatchOrder};

/// Runs `n` jobs that finish in the reverse of the order they were submitted,
/// at most `limit` at a time, and records what is reported, in reporting order.
fn run_reversed(n: usize, limit: usize) -> Vec<(String, u64)> {
    let labels: Vec<String> = (0..n).map(|i| format!("job{i}")).collect();
    let mut order: BatchOrder<u64> = BatchOrder::new(n);
    let mut seen = Vec::new();
    let mut in_flight: Vec<usize> = Vec::new();
    let mut next = 0;
    for _ in 0..initial_in_flight(limit) {
        if next < n {
            in_flight.push(next);
            next += 1;
        }
    }
    while let Some(i) = in_flight.pop() {
        // The most recently started job finishes first.
        for (k, r) in order.deliver(i, i as u64) {
            seen.push((labels[k].clone(), r));
        }
        if next < n {
            in_flight.push(next);
            next += 1;
        }
    }
    for (k, r) in order.finish() {
        seen.push((labels[k].clone(), r.unwrap()));
    }
    seen
}

#[test]
fn batch_reports_in_submission_order_not_completion_order() {
    let seen = run_reversed(5, 5);
    assert_eq!(
        seen,
        (0..5u64)
            .map(|i| (format!("job{i}"), i))
            .collect::<Vec<_>>()
    );
}

#[test]
fn batch_of_one_at_a_time_still_runs_everything() {
    let seen: Vec<u64> = run_reversed(3, 1).into_iter().map(|(_, r)| r).collect();
    assert_eq!(seen, vec![0, 1, 2]);
}

#[test]
fn batch_reports_a_failed_job_and_keeps_going() {
    let labels = ["ok", "bad", "also-ok"];
    let results: Vec<Result<u64, String>> =
        vec![Ok(1), Err("upload refused".to_string()), Ok(3)];
    let mut order: BatchOrder<Result<u64, String>> = BatchOrder::new(3);
    let mut seen = Vec::new();
    // The last job finishes first and waits for the two before it.
    for (i, r) in results.into_iter().enumerate().rev() {
        for (k, r) in order.deliver(i, r) {
            seen.push((labels[k].to_string(), r.is_ok()));
        }
    }
    assert_eq!(
        seen,
        vec![
            ("ok".to_string(), true),
            ("bad".to_string(), false),
            ("also-ok".to_string(), true),
        ]
    );
}

#[test]
fn a_job_whose_worker_failed_is_reported_at_the_end() {
    let mut order: BatchOrder<u64> = BatchOrder::new(3);
    assert!(order.deliver(2, 30).is_empty());
    // Job 0 never delivers; job 1 waits behind it.
    assert!(order.deliver(1, 20).is_empty());
    assert!(!order.can_deliver(1));
    assert!(order.can_deliver(0));
    let rest = order.finish();
    assert_eq!(rest, vec![(0, None), (1, Some(20)), (2, Some(30))]);
}

#[test]
fn progress_lines() {
    assert_eq!(initial_in_flight(0), 1);
    assert_eq!(initial_in_flight(4), 4);
    assert_eq!(progress_message(3, 10), "Processing 3/10...");
    assert_eq!(start_message("photo.jpg", 1), "Processing photo.jpg...");
    assert_eq!(start_message("photo.jpg", 7), "Processing 0/7...");
}

#[test]
fn every_job_is_reported_once_in_submission_order() {
    let finish_order = [3usize, 0, 4, 1, 6, 2];
    let mut order: BatchOrder<usize> = BatchOrder::new(7);
    let mut reported: Vec<(usize, Option<usize>)> = Vec::new();
    for &i in &finish_order {
        assert!(order.can_deliver(i));
        for (k, r) in order.deliver(i, i * 10) {
            reported.push((k, Some(r)));
        }
        assert!(!order.can_deliver(i));
    }
    reported.extend(order.finish());
    let indices: Vec<usize> = reported.iter().map(|p| p.0).collect();
    assert_eq!(indices, vec![0, 1, 2, 3, 4, 5, 6]);
    for (k, r) in &reported {
        if *k == 5 {
            assert_eq!(*r, None);
        } else {
            assert_eq!(*r, Some(k * 10));
        }
    }
}
