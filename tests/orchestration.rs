use nessus_launcher::launch::launch_status_result;
use nessus_launcher::request::{launch_url, script_url, session_cookie, session_url};
use nessus_launcher::{
    BatchAction, BatchPhase, LaunchBatch, LaunchOutcome, NessusConfig, NessusError, RetryPolicy,
    RetryStep, ScanTask, TaskState,
};

const SCRIPT: &str = "{key:\"getApiToken\",value:function(){return\"API-1\"}}";

fn config() -> NessusConfig {
    NessusConfig::from_values(
        Some("https://scanner:8834".to_string()),
        Some("admin".to_string()),
        Some("pass".to_string()),
    )
    .unwrap()
}

/// Runs one scan task, answering attempt `n` (from 1) with `answer(n)`;
/// returns the outcome, the number of attempts and the waits asked for.
fn drive(id: u32, policy: RetryPolicy, answer: impl Fn(u32) -> Result<(), NessusError>) -> (LaunchOutcome, u32, Vec<u64>) {
    let mut task = ScanTask::new(id, policy);
    task.begin();
    let mut calls = 0;
    let mut waits = Vec::new();
    loop {
        calls += 1;
        match task.record(answer(calls)) {
            RetryStep::Wait { delay_ms } => waits.push(delay_ms),
            RetryStep::Done(outcome) => return (outcome, calls, waits),
        }
    }
}

#[test]
fn urls_and_cookie() {
    assert_eq!(script_url("https://h", 1700000000), "https://h/nessus6.js?v=1700000000");
    assert_eq!(script_url("https://h", 0), "https://h/nessus6.js?v=0");
    assert_eq!(session_url("https://h"), "https://h/session");
    assert_eq!(launch_url("https://h", 8), "https://h/scans/8/launch");
    assert_eq!(session_cookie("xyz"), "token=xyz");
    assert_eq!(launch_url("h", 0), "h/scans/0/launch");
    assert_eq!(launch_url("h", u32::MAX), "h/scans/4294967295/launch");
    assert_eq!(script_url("h", u64::MAX), "h/nessus6.js?v=18446744073709551615");
}

#[test]
fn default_policy_delays() {
    let p = RetryPolicy::launch_default();
    assert_eq!((p.base_delay_ms, p.max_delay_ms, p.max_attempts), (500, 10_000, 5));
    let d: Vec<u64> = (1..=7).map(|k| p.delay_after(k)).collect();
    assert_eq!(d, vec![500, 1000, 2000, 4000, 8000, 10_000, 10_000]);
}

#[test]
fn delay_is_capped_without_overflow() {
    let p = RetryPolicy { base_delay_ms: u64::MAX / 2 + 1, max_delay_ms: u64::MAX, max_attempts: 3 };
    assert_eq!(p.delay_after(1), u64::MAX / 2 + 1);
    assert_eq!(p.delay_after(2), u64::MAX);
    assert_eq!(p.delay_after(40), u64::MAX);
    let q = RetryPolicy { base_delay_ms: 20_000, max_delay_ms: 10_000, max_attempts: 3 };
    assert_eq!(q.delay_after(1), 10_000);
}

#[test]
fn launch_status_verdicts() {
    assert!(launch_status_result(5, 200).is_ok());
    assert!(launch_status_result(5, 299).is_ok());
    assert!(matches!(launch_status_result(8, 500), Err(NessusError::Launch { scan_id: 8, status: 500 })));
    assert!(matches!(launch_status_result(8, 199), Err(NessusError::Launch { scan_id: 8, status: 199 })));
    assert!(matches!(launch_status_result(8, 300), Err(NessusError::Launch { scan_id: 8, status: 300 })));
}

#[test]
fn retry_succeeds_on_third_attempt() {
    let (outcome, calls, waits) = drive(5, RetryPolicy::launch_default(), |n| {
        if n < 3 { launch_status_result(5, 503) } else { launch_status_result(5, 200) }
    });
    assert!(matches!(outcome, LaunchOutcome::Launched { scan_id: 5, attempts: 3 }));
    assert_eq!(calls, 3);
    assert_eq!(waits, vec![500, 1000]);
}

#[test]
fn retry_exhausts_after_five_attempts() {
    let (outcome, calls, waits) =
        drive(8, RetryPolicy::launch_default(), |_| launch_status_result(8, 500));
    assert_eq!(calls, 5);
    assert_eq!(waits, vec![500, 1000, 2000, 4000]);
    match outcome {
        LaunchOutcome::Exhausted { scan_id, attempts, last_error } => {
            assert_eq!((scan_id, attempts), (8, 5));
            assert!(matches!(last_error, NessusError::Launch { scan_id: 8, status: 500 }));
        }
        other => panic!("unexpected {:?}", other),
    }
}

#[test]
fn task_states_follow_attempts() {
    let mut task = ScanTask::new(3, RetryPolicy::launch_default());
    assert_eq!(task.state, TaskState::Pending);
    assert!(!task.is_finished());
    task.begin();
    assert_eq!(task.state, TaskState::Attempting(1));
    task.record(Err(NessusError::Http("reset".to_string())));
    assert_eq!(task.state, TaskState::Attempting(2));
    task.record(Ok(()));
    assert_eq!(task.state, TaskState::Succeeded(2));
    assert!(task.is_finished());
}

#[test]
fn empty_batch_is_a_no_op() {
    let mut b = LaunchBatch::new(config(), vec![]);
    assert!(matches!(b.start(1700000000), BatchAction::Finish(Ok(()))));
    assert_eq!(b.phase, BatchPhase::Done);
}

#[test]
fn batch_authenticates_once_then_fans_out() {
    let mut b = LaunchBatch::new(config(), vec![5, 8, 11]);
    match b.start(42) {
        BatchAction::FetchScript { url } => assert_eq!(url, "https://scanner:8834/nessus6.js?v=42"),
        other => panic!("unexpected {:?}", other),
    }
    match b.on_script(Ok(SCRIPT.to_string())) {
        BatchAction::Login { url, headers, body } => {
            assert_eq!(url, "https://scanner:8834/session");
            assert_eq!(headers.len(), 3);
            assert_eq!((headers[1].name.as_str(), headers[1].value.as_str()), ("X-Api-Token", "API-1"));
            assert_eq!(body, "{\"username\":\"admin\",\"password\":\"pass\"}");
        }
        other => panic!("unexpected {:?}", other),
    }
    match b.on_session(Ok("{\"token\":\"xyz\"}".to_string())) {
        BatchAction::LaunchAll { launches, policy } => {
            assert_eq!(policy.max_attempts, 5);
            let ids: Vec<u32> = launches.iter().map(|l| l.scan_id).collect();
            assert_eq!(ids, vec![5, 8, 11]);
            assert_eq!(launches[1].url, "https://scanner:8834/scans/8/launch");
            let h: Vec<(&str, &str)> =
                launches[1].headers.iter().map(|h| (h.name.as_str(), h.value.as_str())).collect();
            assert_eq!(
                h,
                vec![
                    ("User-Agent", "Mozilla/5.0"),
                    ("X-Api-Token", "API-1"),
                    ("X-Cookie", "token=xyz"),
                    ("content-type", "application/json"),
                ]
            );
        }
        other => panic!("unexpected {:?}", other),
    }
    assert_eq!(b.phase, BatchPhase::Launching);
    assert!(b.finish().is_ok());
}

#[test]
fn batch_isolates_a_failing_scan() {
    let mut b = LaunchBatch::new(config(), vec![5, 8, 11]);
    b.start(1);
    b.on_script(Ok(SCRIPT.to_string()));
    let (launches, policy) = match b.on_session(Ok("{\"token\":\"xyz\"}".to_string())) {
        BatchAction::LaunchAll { launches, policy } => (launches, policy),
        other => panic!("unexpected {:?}", other),
    };
    let outcomes: Vec<(LaunchOutcome, u32)> = launches
        .iter()
        .map(|l| {
            let id = l.scan_id;
            let (o, calls, _) = drive(id, policy, |_| launch_status_result(id, if id == 8 { 500 } else { 200 }));
            (o, calls)
        })
        .collect();
    assert!(matches!(outcomes[0], (LaunchOutcome::Launched { scan_id: 5, attempts: 1 }, 1)));
    assert!(matches!(outcomes[1], (LaunchOutcome::Exhausted { scan_id: 8, attempts: 5, .. }, 5)));
    assert!(matches!(outcomes[2], (LaunchOutcome::Launched { scan_id: 11, attempts: 1 }, 1)));
    assert!(b.finish().is_ok());
}

#[test]
fn batch_fails_fast_on_script_fetch_error() {
    let mut b = LaunchBatch::new(config(), vec![5]);
    b.start(1);
    let r = b.on_script(Err(NessusError::Http("connection refused".to_string())));
    assert!(matches!(r, BatchAction::Finish(Err(NessusError::Http(_)))));
    assert_eq!(b.phase, BatchPhase::Done);
}

#[test]
fn batch_fails_fast_on_script_without_token() {
    let mut b = LaunchBatch::new(config(), vec![5]);
    b.start(1);
    let r = b.on_script(Ok("nothing here".to_string()));
    assert!(matches!(r, BatchAction::Finish(Err(NessusError::Parse(_)))));
}

#[test]
fn batch_fails_fast_on_bad_login_reply() {
    let mut b = LaunchBatch::new(config(), vec![5]);
    b.start(1);
    b.on_script(Ok(SCRIPT.to_string()));
    let r = b.on_session(Ok("{}".to_string()));
    assert!(matches!(r, BatchAction::Finish(Err(NessusError::Parse(_)))));
    assert_eq!(b.phase, BatchPhase::Done);
}

#[test]
fn batch_fails_fast_on_login_reply_that_is_not_json() {
    let mut b = LaunchBatch::new(config(), vec![5, 8]);
    b.start(1);
    b.on_script(Ok(SCRIPT.to_string()));
    let r = b.on_session(Ok("<html>login</html>".to_string()));
    assert!(matches!(r, BatchAction::Finish(Err(NessusError::Json(_)))));
    assert_eq!(b.phase, BatchPhase::Done);
}

#[test]
fn batch_fails_fast_on_login_transport_error() {
    let mut b = LaunchBatch::new(config(), vec![5]);
    b.start(1);
    b.on_script(Ok(SCRIPT.to_string()));
    let r = b.on_session(Err(NessusError::Http("timed out".to_string())));
    assert!(matches!(r, BatchAction::Finish(Err(NessusError::Http(_)))));
}
