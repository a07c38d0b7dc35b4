use devrunner::events::Event;
use devrunner::models::ServiceStatus;
use devrunner::supervisor::{
    completed_message, exit_code_to_text, failed_exit_message, i32_to_dec, spawn_failure_message,
    started_message, stderr_message, stdout_message, supervisor_events, u64_to_dec,
    wait_error_message, ExitOutcome, ProcessManager, SpawnOutcome, StreamLine,
};

fn ts() -> String {
    "12:00:00".to_string()
}

#[test]
fn decimal_text_is_exact() {
    assert_eq!(u64_to_dec(0), "0");
    assert_eq!(u64_to_dec(7), "7");
    assert_eq!(u64_to_dec(42), "42");
    assert_eq!(u64_to_dec(1234567890), "1234567890");
    assert_eq!(i32_to_dec(0), "0");
    assert_eq!(i32_to_dec(127), "127");
    assert_eq!(i32_to_dec(-5), "-5");
    assert_eq!(i32_to_dec(i32::MIN), "-2147483648");
    assert_eq!(exit_code_to_text(&Some(1)), "Some(1)");
    assert_eq!(exit_code_to_text(&Some(-9)), "Some(-9)");
    assert_eq!(exit_code_to_text(&None), "None");
}

#[test]
fn log_lines_are_exact() {
    assert_eq!(
        spawn_failure_message(&ts(), &"no such file".to_string()),
        "12:00:00 [ERROR] Failed to start: no such file"
    );
    assert_eq!(
        started_message(&ts(), &"api: dev".to_string()),
        "12:00:00 [INFO] api: dev started successfully."
    );
    assert_eq!(
        stdout_message(&ts(), &"hello".to_string()),
        "12:00:00 [EXEC] hello"
    );
    assert_eq!(
        stderr_message(&ts(), &"oops".to_string()),
        "12:00:00 [ERROR] oops"
    );
    assert_eq!(
        completed_message(&ts()),
        "12:00:00 [INFO] Process completed successfully."
    );
    assert_eq!(
        failed_exit_message(&ts(), &Some(1)),
        "12:00:00 [ERROR] Process failed with exit code: Some(1)"
    );
    assert_eq!(
        wait_error_message(&ts(), &"interrupted".to_string()),
        "12:00:00 [ERROR] Process error: interrupted"
    );
}

fn line(from_stderr: bool, text: &str) -> StreamLine {
    StreamLine {
        timestamp: ts(),
        from_stderr,
        text: text.to_string(),
    }
}

#[test]
fn completed_transcript_orders_logs_before_the_terminal_status() {
    let name = "api: dev".to_string();
    let evs = supervisor_events(
        &name,
        &ts(),
        &SpawnOutcome::Started(Some(321)),
        &vec![line(false, "listening"), line(true, "warning"), line(false, "done")],
        &ts(),
        &ExitOutcome::Success,
    );
    assert_eq!(evs.len(), 7);
    assert!(matches!(
        &evs[0],
        Event::ServiceStatus(n, ServiceStatus::Running(321)) if n == "api: dev"
    ));
    assert!(matches!(&evs[1], Event::ServiceLog(_, l) if l.contains("started successfully")));
    assert!(matches!(&evs[2], Event::ServiceLog(_, l) if l.contains("[EXEC] listening")));
    assert!(matches!(&evs[3], Event::ServiceLog(_, l) if l.contains("[ERROR] warning")));
    assert!(matches!(&evs[4], Event::ServiceLog(_, l) if l.contains("[EXEC] done")));
    assert!(matches!(&evs[5], Event::ServiceLog(_, l) if l.contains("completed successfully")));
    assert!(matches!(
        &evs[6],
        Event::ServiceStatus(n, ServiceStatus::Completed) if n == "api: dev"
    ));
    for e in &evs[..6] {
        assert!(!matches!(
            e,
            Event::ServiceStatus(_, ServiceStatus::Completed | ServiceStatus::Failed)
        ));
    }
}

#[test]
fn spawn_failure_transcript_has_one_failed_status_and_no_running() {
    let name = "api: dev".to_string();
    let evs = supervisor_events(
        &name,
        &ts(),
        &SpawnOutcome::SpawnError("No such file or directory".to_string()),
        &Vec::new(),
        &ts(),
        &ExitOutcome::Success,
    );
    assert_eq!(evs.len(), 2);
    assert!(matches!(
        &evs[0],
        Event::ServiceLog(n, l) if n == "api: dev" && l.contains("[ERROR] Failed to start: No such file or directory")
    ));
    assert!(matches!(
        &evs[1],
        Event::ServiceStatus(n, ServiceStatus::Failed) if n == "api: dev"
    ));
    let failed = evs
        .iter()
        .filter(|e| matches!(e, Event::ServiceStatus(_, ServiceStatus::Failed)))
        .count();
    assert_eq!(failed, 1);
    assert!(!evs
        .iter()
        .any(|e| matches!(e, Event::ServiceStatus(_, ServiceStatus::Running(_)))));
}

#[test]
fn pid_less_spawn_announces_nothing_before_the_lines() {
    let evs = supervisor_events(
        &"svc".to_string(),
        &ts(),
        &SpawnOutcome::Started(None),
        &vec![line(false, "out")],
        &ts(),
        &ExitOutcome::Failure(Some(3)),
    );
    assert_eq!(evs.len(), 3);
    assert!(matches!(&evs[0], Event::ServiceLog(_, l) if l.contains("[EXEC] out")));
    assert!(matches!(&evs[1], Event::ServiceLog(_, l) if l.contains("exit code: Some(3)")));
    assert!(matches!(&evs[2], Event::ServiceStatus(_, ServiceStatus::Failed)));
}

#[test]
fn wait_error_transcript_ends_failed() {
    let evs = supervisor_events(
        &"svc".to_string(),
        &ts(),
        &SpawnOutcome::Started(Some(1)),
        &Vec::new(),
        &ts(),
        &ExitOutcome::WaitError("wait interrupted".to_string()),
    );
    let last = evs.last().unwrap();
    assert!(matches!(last, Event::ServiceStatus(_, ServiceStatus::Failed)));
    assert!(matches!(
        &evs[evs.len() - 2],
        Event::ServiceLog(_, l) if l.contains("Process error: wait interrupted")
    ));
}

fn drain(rx: &mut tokio::sync::mpsc::UnboundedReceiver<Event>) -> Vec<Event> {
    let mut out = Vec::new();
    while let Ok(e) = rx.try_recv() {
        out.push(e);
    }
    out
}

#[test]
fn manager_emits_the_provisional_start_signal() {
    let (tx, mut rx) = tokio::sync::mpsc::unbounded_channel::<Event>();
    let pm = ProcessManager::new(tx);
    pm.notify_start_requested(&"svc".to_string());
    let evs = drain(&mut rx);
    assert_eq!(evs.len(), 1);
    assert!(matches!(
        &evs[0],
        Event::ServiceStatus(n, ServiceStatus::Running(0)) if n == "svc"
    ));
}

#[test]
fn manager_emits_spawn_failure_in_order_with_a_clock_stamp() {
    let (tx, mut rx) = tokio::sync::mpsc::unbounded_channel::<Event>();
    let pm = ProcessManager::new(tx);
    pm.notify_spawn_failure(&"svc".to_string(), &"boom".to_string());
    let evs = drain(&mut rx);
    assert_eq!(evs.len(), 2);
    match &evs[0] {
        Event::ServiceLog(n, l) => {
            assert_eq!(n, "svc");
            assert_eq!(&l[8..], " [ERROR] Failed to start: boom");
            let stamp = &l[..8];
            let bytes = stamp.as_bytes();
            assert!(bytes[2] == b':' && bytes[5] == b':');
        }
        other => panic!("expected a log event, got {:?}", other),
    }
    assert!(matches!(&evs[1], Event::ServiceStatus(_, ServiceStatus::Failed)));
}

#[test]
fn manager_emits_start_lines_and_exit_in_order() {
    let (tx, mut rx) = tokio::sync::mpsc::unbounded_channel::<Event>();
    let pm = ProcessManager::new(tx);
    let name = "svc".to_string();
    pm.notify_started(&name, 99);
    pm.notify_output_line(&name, false, &"ready".to_string());
    pm.notify_output_line(&name, true, &"careful".to_string());
    pm.notify_exit(&name, &ExitOutcome::Success);
    let evs = drain(&mut rx);
    assert_eq!(evs.len(), 6);
    assert!(matches!(&evs[0], Event::ServiceStatus(_, ServiceStatus::Running(99))));
    assert!(matches!(&evs[1], Event::ServiceLog(_, l) if l.contains("started successfully")));
    assert!(matches!(&evs[2], Event::ServiceLog(_, l) if l.contains("[EXEC] ready")));
    assert!(matches!(&evs[3], Event::ServiceLog(_, l) if l.contains("[ERROR] careful")));
    assert!(matches!(&evs[4], Event::ServiceLog(_, l) if l.contains("completed successfully")));
    assert!(matches!(&evs[5], Event::ServiceStatus(_, ServiceStatus::Completed)));
}

#[test]
fn manager_reports_failed_exits() {
    let (tx, mut rx) = tokio::sync::mpsc::unbounded_channel::<Event>();
    let pm = ProcessManager::new(tx);
    pm.notify_exit(&"svc".to_string(), &ExitOutcome::Failure(Some(1)));
    let evs = drain(&mut rx);
    assert_eq!(evs.len(), 2);
    assert!(matches!(&evs[0], Event::ServiceLog(_, l) if l.contains("exit code: Some(1)")));
    assert!(matches!(&evs[1], Event::ServiceStatus(_, ServiceStatus::Failed)));
}
