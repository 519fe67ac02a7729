use std::cell::Cell;

use oci_distribution::client::PushResponse;
use oci_distribution::errors::OciDistributionError;
use oci_loadtest::outcome::{kind_of, JoinedPush, LoadTestError, OutcomeKind, PushResult, TaskOutcome};
use oci_loadtest::reference::reference_name;
use oci_loadtest::report::{collect_report, summarize, ReportSummary};
use oci_loadtest::task::plan_pushes;
use tokio::sync::oneshot;

fn manifest_url(reference: &str) -> String {
    format!("http://{reference}/manifest")
}

fn accepted(reference: &str) -> PushResult {
    Ok(PushResponse {
        config_url: format!("http://{reference}/config"),
        manifest_url: manifest_url(reference),
    })
}

fn server_error() -> PushResult {
    Err(OciDistributionError::GenericError(Some("server error".to_string())))
}

/// Runs the plan against a stub of the registry client, one call per task.
fn run_with_stub(
    image_count: usize,
    host: &str,
    stub: &dyn Fn(usize, &str) -> PushResult,
) -> Vec<TaskOutcome> {
    let mut joined: Vec<JoinedPush> = Vec::new();
    for task in plan_pushes(image_count, host) {
        let reference = reference_name(&task.host, task.index);
        joined.push(Ok(stub(task.index, &reference)));
    }
    collect_report(joined)
}

fn kinds(report: &[TaskOutcome]) -> Vec<OutcomeKind> {
    report.iter().map(kind_of).collect()
}

fn cause_of(outcome: &TaskOutcome) -> String {
    match outcome {
        Err(LoadTestError::OciDistributionError(OciDistributionError::GenericError(Some(
            message,
        )))) => message.clone(),
        _ => panic!("not a protocol failure with a message"),
    }
}

fn url_of(outcome: &TaskOutcome) -> String {
    match outcome {
        Ok(response) => response.manifest_url.clone(),
        Err(error) => panic!("{}", error.to_string()),
    }
}

#[test]
fn report_has_one_entry_per_task() {
    for k in [0usize, 1, 2, 7, 64] {
        let report = run_with_stub(k, "localhost:6000", &|_, reference| accepted(reference));
        assert_eq!(report.len(), k);
        for (i, outcome) in report.iter().enumerate() {
            let reference = format!("localhost:6000/test/this-{i}:latest");
            assert_eq!(url_of(outcome), manifest_url(&reference));
        }
    }
}

#[test]
fn report_keeps_its_length_when_every_task_fails() {
    let report = run_with_stub(9, "localhost:6000", &|_, _| server_error());
    assert_eq!(report.len(), 9);
    assert_eq!(kinds(&report), vec![OutcomeKind::ProtocolFailure; 9]);
}

#[test]
fn no_images_no_report_no_calls() {
    let calls = Cell::new(0usize);
    let report = run_with_stub(0, "localhost:6000", &|_, reference| {
        calls.set(calls.get() + 1);
        accepted(reference)
    });
    assert!(report.is_empty());
    assert_eq!(calls.get(), 0);
    assert!(plan_pushes(0, "localhost:6000").is_empty());
    assert!(collect_report(Vec::new()).is_empty());
}

#[test]
fn each_task_is_pushed_once() {
    let calls = Cell::new(0usize);
    let seen = std::cell::RefCell::new(Vec::new());
    let report = run_with_stub(12, "localhost:6000", &|index, reference| {
        calls.set(calls.get() + 1);
        seen.borrow_mut().push((index, reference.to_string()));
        accepted(reference)
    });
    assert_eq!(report.len(), 12);
    assert_eq!(calls.get(), 12);
    let seen = seen.into_inner();
    for (i, (index, reference)) in seen.iter().enumerate() {
        assert_eq!(*index, i);
        assert_eq!(*reference, format!("localhost:6000/test/this-{i}:latest"));
    }
}

#[test]
fn one_failure_leaves_the_others_pushed() {
    for failing in 0..6usize {
        let report = run_with_stub(6, "localhost:6000", &|index, reference| {
            if index == failing {
                server_error()
            } else {
                accepted(reference)
            }
        });
        assert_eq!(report.len(), 6);
        for (i, outcome) in report.iter().enumerate() {
            if i == failing {
                assert_eq!(kind_of(outcome), OutcomeKind::ProtocolFailure);
                assert_eq!(cause_of(outcome), "server error");
            } else {
                assert_eq!(kind_of(outcome), OutcomeKind::Pushed);
                let reference = format!("localhost:6000/test/this-{i}:latest");
                assert_eq!(url_of(outcome), manifest_url(&reference));
            }
        }
    }
}

#[test]
fn a_failure_is_not_retried() {
    let calls = Cell::new(0usize);
    let report = run_with_stub(1, "localhost:6000", &|_, reference| {
        calls.set(calls.get() + 1);
        if calls.get() == 1 {
            server_error()
        } else {
            accepted(reference)
        }
    });
    assert_eq!(calls.get(), 1);
    assert_eq!(kinds(&report), vec![OutcomeKind::ProtocolFailure]);
    assert_eq!(cause_of(&report[0]), "server error");
}

#[test]
fn three_pushes_report_in_index_order() {
    let report = run_with_stub(3, "localhost:6000", &|index, _| {
        Ok(PushResponse { config_url: format!("c{index}"), manifest_url: format!("u{index}") })
    });
    let urls: Vec<String> = report.iter().map(url_of).collect();
    assert_eq!(urls, vec!["u0", "u1", "u2"]);
    assert_eq!(kinds(&report), vec![OutcomeKind::Pushed; 3]);
}

#[test]
fn three_pushes_report_in_index_order_when_the_last_finishes_first() {
    let runtime = tokio::runtime::Builder::new_current_thread().build().unwrap();
    let finished = std::sync::Arc::new(std::sync::Mutex::new(Vec::new()));
    let joined: Vec<JoinedPush> = runtime.block_on(async {
        let (done_2, wait_for_2) = oneshot::channel::<()>();
        let (done_1, wait_for_1) = oneshot::channel::<()>();
        let mut gates = vec![(Some(wait_for_1), None), (Some(wait_for_2), Some(done_1)), (None, Some(done_2))];
        let mut handles = Vec::new();
        for task in plan_pushes(3, "localhost:6000") {
            let (wait, done) = std::mem::replace(&mut gates[task.index], (None, None));
            let finished = finished.clone();
            handles.push(tokio::spawn(async move {
                if let Some(wait) = wait {
                    wait.await.unwrap();
                }
                finished.lock().unwrap().push(task.index);
                if let Some(done) = done {
                    done.send(()).unwrap();
                }
                let result: PushResult = Ok(PushResponse {
                    config_url: format!("c{}", task.index),
                    manifest_url: format!("u{}", task.index),
                });
                result
            }));
        }
        futures::future::join_all(handles).await
    });
    assert_eq!(*finished.lock().unwrap(), vec![2, 1, 0]);
    let report = collect_report(joined);
    let urls: Vec<String> = report.iter().map(url_of).collect();
    assert_eq!(urls, vec!["u0", "u1", "u2"]);
}

#[test]
fn five_pushes_with_two_server_errors() {
    let report = run_with_stub(5, "localhost:6000", &|index, reference| {
        if index == 1 || index == 3 {
            server_error()
        } else {
            accepted(reference)
        }
    });
    assert_eq!(
        kinds(&report),
        vec![
            OutcomeKind::Pushed,
            OutcomeKind::ProtocolFailure,
            OutcomeKind::Pushed,
            OutcomeKind::ProtocolFailure,
            OutcomeKind::Pushed,
        ]
    );
    assert_eq!(cause_of(&report[1]), "server error");
    assert_eq!(cause_of(&report[3]), "server error");
    for i in [0usize, 2, 4] {
        let reference = format!("localhost:6000/test/this-{i}:latest");
        assert_eq!(url_of(&report[i]), manifest_url(&reference));
    }
    assert_eq!(
        summarize(&report),
        ReportSummary { attempted: 5, pushed: 3, protocol_failures: 2, scheduling_failures: 0 }
    );
}

#[test]
fn an_aborted_task_is_a_scheduling_failure_among_the_others() {
    let runtime = tokio::runtime::Builder::new_current_thread().build().unwrap();
    let joined: Vec<JoinedPush> = runtime.block_on(async {
        let mut handles = Vec::new();
        for task in plan_pushes(4, "localhost:6000") {
            let handle = tokio::spawn(async move {
                if task.index == 2 {
                    std::future::pending::<()>().await;
                }
                if task.index == 3 {
                    server_error()
                } else {
                    accepted(&reference_name(&task.host, task.index))
                }
            });
            if task.index == 2 {
                handle.abort();
            }
            handles.push(handle);
        }
        futures::future::join_all(handles).await
    });
    let report = collect_report(joined);
    assert_eq!(
        kinds(&report),
        vec![
            OutcomeKind::Pushed,
            OutcomeKind::Pushed,
            OutcomeKind::SchedulingFailure,
            OutcomeKind::ProtocolFailure,
        ]
    );
    match &report[2] {
        Err(LoadTestError::JoinError(cause)) => assert!(cause.is_cancelled()),
        _ => panic!("the aborted task was not a scheduling failure"),
    }
    assert_eq!(
        summarize(&report),
        ReportSummary { attempted: 4, pushed: 2, protocol_failures: 1, scheduling_failures: 1 }
    );
}

#[test]
fn summary_of_an_empty_report() {
    assert_eq!(
        summarize(&Vec::new()),
        ReportSummary { attempted: 0, pushed: 0, protocol_failures: 0, scheduling_failures: 0 }
    );
}

#[test]
fn summary_counts_add_up() {
    let report = run_with_stub(30, "localhost:6000", &|index, reference| {
        if index % 3 == 0 {
            server_error()
        } else {
            accepted(reference)
        }
    });
    let summary = summarize(&report);
    assert_eq!(summary.attempted, 30);
    assert_eq!(summary.pushed, 20);
    assert_eq!(summary.protocol_failures, 10);
    assert_eq!(summary.scheduling_failures, 0);
    assert_eq!(
        summary.pushed + summary.protocol_failures + summary.scheduling_failures,
        summary.attempted
    );
}
