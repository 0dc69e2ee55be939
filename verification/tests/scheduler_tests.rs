use primenet_rs::{
    poll_once, sleep_seconds, FetchOutcome, QueueFile, RequestError, RequestOutcome,
    SubmissionResult,
};

const HEX: &str = "0123456789ABCDEF0123456789ABCDEF";

fn file_with(lines: &[&str]) -> QueueFile {
    QueueFile {
        records: lines.iter().map(|s| s.to_string()).collect(),
        locked: false,
    }
}

#[test]
fn single_cycle_runs_requester_then_submitter_once() {
    let mut queue = file_with(&["kept"]);
    let mut results = file_with(&["done"]);
    let mut sent = file_with(&[]);
    let fetch = FetchOutcome::Response {
        status: 200,
        body: format!("x\nTest={},75000077,1,1\ny", HEX),
    };
    let responses = vec![SubmissionResult::Response {
        text: "Accepted".to_string(),
    }];
    let report = poll_once(3, &mut queue, &mut results, &mut sent, fetch, None, &responses);
    match report.request {
        Ok(RequestOutcome::Appended { ref records }) => {
            assert_eq!(records, &vec![format!("Test={},75000077,1,1", HEX)]);
        }
        _ => panic!("the requester must append the fetched record"),
    }
    let sub = report.submit.expect("the submitter must run after a successful request");
    let sub = sub.expect("the submitter must succeed with free locks");
    assert_eq!(sub.accepted, vec!["done".to_string()]);
    assert_eq!(queue.records.len(), 2);
    assert!(results.records.is_empty());
    assert_eq!(sent.records, vec!["done".to_string()]);
    assert!(!queue.locked && !results.locked && !sent.locked);
}

#[test]
fn requester_failure_stops_the_cycle_before_the_submitter() {
    let mut queue = file_with(&[]);
    let mut results = file_with(&["done"]);
    let mut sent = file_with(&[]);
    let fetch = FetchOutcome::TransportError {
        detail: "offline".to_string(),
    };
    let responses: Vec<SubmissionResult> = Vec::new();
    let report = poll_once(2, &mut queue, &mut results, &mut sent, fetch, None, &responses);
    assert!(matches!(report.request, Err(RequestError::Transport { .. })));
    assert!(report.submit.is_none());
    assert_eq!(results.records, vec!["done".to_string()]);
    assert!(!queue.locked && !results.locked && !sent.locked);
}

#[test]
fn sleep_clamps_to_zero_when_the_cycle_overran() {
    assert_eq!(sleep_seconds(10, 3), 7);
    assert_eq!(sleep_seconds(5, 5), 0);
    assert_eq!(sleep_seconds(3, 10), 0);
    assert_eq!(sleep_seconds(0, 0), 0);
}
