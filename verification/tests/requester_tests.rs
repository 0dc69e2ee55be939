use primenet_rs::{
    begin_request, finish_request, login_succeeded, request_more, FetchOutcome, FetchPlan,
    QueueFile, RequestError, RequestOutcome, WriteFault,
};

const HEX: &str = "0123456789ABCDEF0123456789ABCDEF";

fn queue_with(lines: &[&str]) -> QueueFile {
    QueueFile {
        records: lines.iter().map(|s| s.to_string()).collect(),
        locked: false,
    }
}

fn two_record_body() -> String {
    format!(
        "<html><body>\nTest={},75000077,1,1\nDoubleCheck={},60000001,2,2\n</body></html>",
        HEX, HEX
    )
}

#[test]
fn deficit_is_target_minus_current_length() {
    let mut queue = queue_with(&["one"]);
    let plan = begin_request(3, &mut queue).unwrap();
    match plan {
        FetchPlan::Fetch { deficit } => assert_eq!(deficit, 2),
        FetchPlan::AlreadyCached { .. } => panic!("a short queue must require a fetch"),
    }
    assert!(queue.locked);
}

#[test]
fn full_cycle_appends_exactly_the_extracted_records() {
    let mut queue = queue_with(&["one"]);
    let plan = begin_request(3, &mut queue).unwrap();
    assert!(matches!(plan, FetchPlan::Fetch { deficit: 2 }));
    let outcome = FetchOutcome::Response {
        status: 200,
        body: two_record_body(),
    };
    let r = finish_request(&mut queue, outcome, None).unwrap();
    match r {
        RequestOutcome::Appended { records } => {
            assert_eq!(
                records,
                vec![
                    format!("Test={},75000077,1,1", HEX),
                    format!("DoubleCheck={},60000001,2,2", HEX),
                ]
            );
        }
        _ => panic!("a successful fetch with records must append"),
    }
    assert_eq!(queue.records.len(), 3);
    assert!(!queue.locked);
}

#[test]
fn full_queue_short_circuits_without_any_fetch() {
    let mut queue = queue_with(&["a", "b", "c", "d"]);
    let plan = begin_request(3, &mut queue).unwrap();
    match plan {
        FetchPlan::AlreadyCached { have } => assert_eq!(have, 4),
        FetchPlan::Fetch { .. } => panic!("a full queue must not require a fetch"),
    }
    assert!(!queue.locked);
    assert_eq!(queue.records.len(), 4);
}

#[test]
fn request_more_short_circuits_on_full_queue() {
    let mut queue = queue_with(&["a", "b", "c", "d"]);
    let fetch = FetchOutcome::Response {
        status: 200,
        body: two_record_body(),
    };
    let r = request_more(3, &mut queue, fetch, None).unwrap();
    assert!(matches!(r, RequestOutcome::AlreadyCached { have: 4 }));
    assert_eq!(queue.records.len(), 4);
    assert!(!queue.locked);
}

#[test]
fn busy_queue_lock_fails_the_cycle() {
    let mut queue = QueueFile {
        records: vec!["a".to_string()],
        locked: true,
    };
    let r = begin_request(3, &mut queue);
    assert!(matches!(r, Err(RequestError::LockBusy)));
}

#[test]
fn bad_status_releases_lock_and_reports_rejection() {
    let mut queue = queue_with(&[]);
    let fetch = FetchOutcome::Response {
        status: 500,
        body: "server error".to_string(),
    };
    let r = request_more(2, &mut queue, fetch, None).unwrap();
    match r {
        RequestOutcome::FetchRejected { status, body } => {
            assert_eq!(status, 500);
            assert_eq!(body, "server error");
        }
        _ => panic!("a non-success status must be reported as rejected"),
    }
    assert!(queue.records.is_empty());
    assert!(!queue.locked);
}

#[test]
fn empty_response_is_a_warning_not_an_error() {
    let mut queue = queue_with(&[]);
    let fetch = FetchOutcome::Response {
        status: 200,
        body: "<html>no assignments today</html>".to_string(),
    };
    let r = request_more(2, &mut queue, fetch, None).unwrap();
    assert!(matches!(r, RequestOutcome::NothingFound));
    assert!(queue.records.is_empty());
    assert!(!queue.locked);
}

#[test]
fn transport_error_releases_lock() {
    let mut queue = queue_with(&[]);
    let fetch = FetchOutcome::TransportError {
        detail: "connection refused".to_string(),
    };
    let r = request_more(2, &mut queue, fetch, None);
    match r {
        Err(RequestError::Transport { detail }) => assert_eq!(detail, "connection refused"),
        _ => panic!("a transport failure must surface as an error"),
    }
    assert!(!queue.locked);
}

#[test]
fn partial_append_names_the_unwritten_records() {
    let mut queue = queue_with(&[]);
    let fetch = FetchOutcome::Response {
        status: 200,
        body: two_record_body(),
    };
    let fault = Some(WriteFault {
        written: 1,
        detail: "disk full".to_string(),
    });
    let r = request_more(3, &mut queue, fetch, fault);
    match r {
        Err(RequestError::AppendFailed { unwritten, message }) => {
            assert_eq!(unwritten, vec![format!("DoubleCheck={},60000001,2,2", HEX)]);
            let expected = format!(
                "Failed to write to worktodo file.\n\nJobs queued to be written to worktodo:\n\
                 DoubleCheck={},60000001,2,2\n\nPlease add these to your worktodo manually.\
                 \n\nError: disk full",
                HEX
            );
            assert_eq!(message, expected);
        }
        _ => panic!("a partial append must fail with the unwritten records"),
    }
    assert_eq!(queue.records, vec![format!("Test={},75000077,1,1", HEX)]);
    assert!(!queue.locked);
}

#[test]
fn login_check_needs_success_status_and_marker() {
    assert!(login_succeeded(
        200,
        "<b>someuser</b> someuser<br>logged in ok",
        "someuser"
    ));
    assert!(!login_succeeded(200, "please log in", "someuser"));
    assert!(!login_succeeded(403, "someuser<br>logged in", "someuser"));
}
