use primenet_rs::{
    classify_response, reconcile, submit_completed, QueueFile, ResponseClass, SubmissionResult,
    SubmitError,
};

fn file_with(lines: &[&str]) -> QueueFile {
    QueueFile {
        records: lines.iter().map(|s| s.to_string()).collect(),
        locked: false,
    }
}

fn strings(v: &[&str]) -> Vec<String> {
    v.iter().map(|s| s.to_string()).collect()
}

#[test]
fn accepted_marker_classifies_as_accepted() {
    let r = classify_response("<html>Result Accepted, thank you</html>");
    assert!(matches!(r, ResponseClass::Accepted));
}

#[test]
fn error_payload_classifies_as_rejected_with_detail() {
    let r = classify_response("junk Error: bad checksum</div> trailer");
    match r {
        ResponseClass::Rejected { detail } => assert_eq!(detail, "Error: bad checksum"),
        _ => panic!("an error payload must classify as rejected"),
    }
}

#[test]
fn error_without_closing_tag_takes_rest_of_body() {
    let r = classify_response("oops Error happened");
    match r {
        ResponseClass::Rejected { detail } => assert_eq!(detail, "Error happened"),
        _ => panic!("an error payload must classify as rejected"),
    }
}

#[test]
fn error_wins_over_accepted() {
    let r = classify_response("Accepted Error</div>");
    assert!(matches!(r, ResponseClass::Rejected { .. }));
}

#[test]
fn unrecognized_body_is_ambiguous() {
    let r = classify_response("<html>service unavailable</html>");
    assert!(matches!(r, ResponseClass::Ambiguous));
}

#[test]
fn reconcile_excludes_lines_still_queued() {
    let results = strings(&["X", "Y", "Z"]);
    let queue = strings(&["X", "Z", "other"]);
    let (eligible, collisions) = reconcile(&results, &queue);
    assert_eq!(eligible, strings(&["Y"]));
    assert_eq!(collisions, strings(&["X", "Z"]));
}

#[test]
fn collision_stays_in_both_files_and_is_not_submitted() {
    let mut queue = file_with(&["X"]);
    let mut results = file_with(&["X"]);
    let mut sent = file_with(&[]);
    let responses: Vec<SubmissionResult> = Vec::new();
    let report = submit_completed(&mut queue, &mut results, &mut sent, &responses).unwrap();
    assert_eq!(report.collisions, strings(&["X"]));
    assert!(report.accepted.is_empty());
    assert!(report.retried.is_empty());
    assert_eq!(queue.records, strings(&["X"]));
    assert_eq!(results.records, strings(&["X"]));
    assert!(sent.records.is_empty());
    assert!(!queue.locked && !results.locked && !sent.locked);
}

#[test]
fn accepted_result_moves_to_sent_log_and_rejected_stays() {
    let mut queue = file_with(&[]);
    let mut results = file_with(&["R1", "R2"]);
    let mut sent = file_with(&["earlier"]);
    let responses = vec![
        SubmissionResult::Response {
            text: "Accepted".to_string(),
        },
        SubmissionResult::Response {
            text: "Error: no such assignment</div>".to_string(),
        },
    ];
    let report = submit_completed(&mut queue, &mut results, &mut sent, &responses).unwrap();
    assert_eq!(report.accepted, strings(&["R1"]));
    assert_eq!(report.retried, strings(&["R2"]));
    assert_eq!(results.records, strings(&["R2"]));
    assert_eq!(sent.records, strings(&["earlier", "R1"]));
    assert!(!queue.locked && !results.locked && !sent.locked);
}

#[test]
fn ambiguous_and_transport_failures_retain_the_result() {
    let mut queue = file_with(&[]);
    let mut results = file_with(&["R1", "R2"]);
    let mut sent = file_with(&[]);
    let responses = vec![
        SubmissionResult::Response {
            text: "something odd".to_string(),
        },
        SubmissionResult::TransportError {
            detail: "timeout".to_string(),
        },
    ];
    let report = submit_completed(&mut queue, &mut results, &mut sent, &responses).unwrap();
    assert!(report.accepted.is_empty());
    assert_eq!(report.retried, strings(&["R1", "R2"]));
    assert_eq!(results.records, strings(&["R1", "R2"]));
    assert!(sent.records.is_empty());
}

#[test]
fn unanswered_submissions_lose_nothing() {
    let mut queue = file_with(&[]);
    let mut results = file_with(&["R1", "R2"]);
    let mut sent = file_with(&[]);
    let responses = vec![SubmissionResult::Response {
        text: "Accepted".to_string(),
    }];
    let report = submit_completed(&mut queue, &mut results, &mut sent, &responses).unwrap();
    assert_eq!(report.accepted, strings(&["R1"]));
    assert_eq!(results.records, strings(&["R2"]));
}

#[test]
fn busy_queue_lock_fails_the_submission_cycle() {
    let mut queue = QueueFile {
        records: vec!["a".to_string()],
        locked: true,
    };
    let mut results = file_with(&["r"]);
    let mut sent = file_with(&[]);
    let responses: Vec<SubmissionResult> = Vec::new();
    let r = submit_completed(&mut queue, &mut results, &mut sent, &responses);
    assert!(matches!(r, Err(SubmitError::QueueBusy)));
    assert_eq!(results.records, strings(&["r"]));
    assert!(!results.locked && !sent.locked);
}

#[test]
fn busy_results_lock_releases_the_queue_lock() {
    let mut queue = file_with(&["a"]);
    let mut results = QueueFile {
        records: vec!["r".to_string()],
        locked: true,
    };
    let mut sent = file_with(&[]);
    let responses: Vec<SubmissionResult> = Vec::new();
    let r = submit_completed(&mut queue, &mut results, &mut sent, &responses);
    assert!(matches!(r, Err(SubmitError::ResultsBusy)));
    assert!(!queue.locked);
    assert_eq!(results.records, strings(&["r"]));
}

#[test]
fn busy_sent_lock_releases_queue_and_results_locks() {
    let mut queue = file_with(&[]);
    let mut results = file_with(&[]);
    let mut sent = QueueFile {
        records: Vec::new(),
        locked: true,
    };
    let responses: Vec<SubmissionResult> = Vec::new();
    let r = submit_completed(&mut queue, &mut results, &mut sent, &responses);
    assert!(matches!(r, Err(SubmitError::SentBusy)));
    assert!(!queue.locked && !results.locked);
    assert!(sent.locked);
}
