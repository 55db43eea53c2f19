use arfni_gui::commands::deployment::{
    classify_line, deploy_stack, finish_deployment, on_stderr_line, on_stderr_line_at,
    parse_ndjson_log, reset_deployment_state, stop_deployment, DeploymentEvent, DeploymentLog,
    DeploymentStatus, DeploymentSupervisor, LineClass, RunOutcome, StampedLine,
};
use serde_json::Value;

fn url_outputs() -> Value {
    let mut map = serde_json::Map::new();
    map.insert("url".to_string(), Value::String("http://x".to_string()));
    Value::Object(map)
}

fn failed(message: &str) -> DeploymentEvent {
    DeploymentEvent::Failed(DeploymentStatus {
        status: "failed".to_string(),
        message: Some(message.to_string()),
        outputs: None,
    })
}

fn info(timestamp: &str, message: &str) -> DeploymentEvent {
    DeploymentEvent::Log(DeploymentLog {
        timestamp: timestamp.to_string(),
        level: "info".to_string(),
        message: message.to_string(),
        data: None,
    })
}

fn started_run(
    supervisor: &mut DeploymentSupervisor,
    sink: &mut Vec<DeploymentEvent>,
) -> arfni_gui::commands::deployment::DeploymentRun {
    let launch = deploy_stack(
        supervisor,
        sink,
        Ok("/opt/arfni-go".to_string()),
        "/work/demo".to_string(),
        "/work/demo/stack.yaml".to_string(),
    )
    .unwrap();
    launch.run
}

#[test]
fn marker_line_with_valid_json_is_a_payload() {
    assert_eq!(
        classify_line("__OUTPUTS__{\"url\":\"http://x\"}"),
        LineClass::Outputs(Some(url_outputs()))
    );
}

#[test]
fn marker_line_with_malformed_json_has_no_payload() {
    assert_eq!(classify_line("__OUTPUTS__{\"url\":"), LineClass::Outputs(None));
    assert_eq!(classify_line("__OUTPUTS__"), LineClass::Outputs(None));
}

#[test]
fn payload_starts_right_behind_the_leftmost_marker() {
    assert_eq!(
        classify_line("done __OUTPUTS__[1,2]"),
        LineClass::Outputs(Some(Value::Array(vec![Value::from(1), Value::from(2)])))
    );
    assert_eq!(classify_line("__OUTPUTS__ __OUTPUTS__1"), LineClass::Outputs(None));
    assert_eq!(classify_line("x__OUTPUTS__ 7"), LineClass::Outputs(Some(Value::from(7))));
}

#[test]
fn marker_wins_over_a_structured_record() {
    let line = "{\"type\":\"info\",\"timestamp\":\"t\",\"message\":\"__OUTPUTS__\"}";
    assert_eq!(classify_line(line), LineClass::Outputs(None));
}

#[test]
fn structured_line_becomes_a_record() {
    let line = "{\"type\":\"warning\",\"timestamp\":\"2024-05-01T10:00:00Z\",\"message\":\"pulling\",\"data\":{\"url\":\"http://x\"}}";
    let expected = DeploymentLog {
        timestamp: "2024-05-01T10:00:00Z".to_string(),
        level: "warning".to_string(),
        message: "pulling".to_string(),
        data: Some(url_outputs()),
    };
    assert_eq!(parse_ndjson_log(line), Some(expected.clone()));
    assert_eq!(classify_line(line), LineClass::Record(expected));
}

#[test]
fn record_without_data_or_with_null_data_has_none() {
    let bare = "{\"type\":\"info\",\"timestamp\":\"t\",\"message\":\"m\"}";
    let null = "{\"type\":\"info\",\"timestamp\":\"t\",\"message\":\"m\",\"data\":null}";
    let extra = "{\"type\":\"info\",\"timestamp\":\"t\",\"message\":\"m\",\"other\":3}";
    let expected = DeploymentLog {
        timestamp: "t".to_string(),
        level: "info".to_string(),
        message: "m".to_string(),
        data: None,
    };
    assert_eq!(parse_ndjson_log(bare), Some(expected.clone()));
    assert_eq!(parse_ndjson_log(null), Some(expected.clone()));
    assert_eq!(parse_ndjson_log(extra), Some(expected));
}

#[test]
fn lines_that_are_not_records_are_plain() {
    assert_eq!(classify_line(""), LineClass::Plain);
    assert_eq!(classify_line("Pulling image nginx"), LineClass::Plain);
    assert_eq!(classify_line("{\"type\":\"info\"}"), LineClass::Plain);
    assert_eq!(classify_line("{\"type\":1,\"timestamp\":\"t\",\"message\":\"m\"}"), LineClass::Plain);
    assert_eq!(classify_line("[\"info\",\"t\",\"m\"]"), LineClass::Plain);
    assert_eq!(classify_line("42"), LineClass::Plain);
    assert_eq!(parse_ndjson_log("{\"type\":\"info\",\"timestamp\":\"t\"}"), None);
    assert_eq!(parse_ndjson_log("not json"), None);
}

#[test]
fn event_names() {
    let status = DeploymentStatus { status: String::new(), message: None, outputs: None };
    assert_eq!(DeploymentEvent::Started(status.clone()).name(), "deployment-started");
    assert_eq!(DeploymentEvent::Completed(status.clone()).name(), "deployment-completed");
    assert_eq!(DeploymentEvent::Failed(status).name(), "deployment-failed");
    assert_eq!(info("t", "m").name(), "deployment-log");
}

#[test]
fn accepted_start_raises_the_flag_and_plans_the_launch() {
    let mut supervisor = DeploymentSupervisor::new();
    let mut sink = Vec::new();
    assert!(!supervisor.is_running());
    let launch = deploy_stack(
        &mut supervisor,
        &mut sink,
        Ok("/opt/arfni-go".to_string()),
        "/work/demo".to_string(),
        "/work/demo/stack.yaml".to_string(),
    )
    .unwrap();
    assert!(supervisor.is_running());
    assert_eq!(supervisor.child(), None);
    assert_eq!(
        launch.status,
        DeploymentStatus {
            status: "deploying".to_string(),
            message: Some("배포가 백그라운드에서 실행 중입니다".to_string()),
            outputs: None,
        }
    );
    assert_eq!(launch.run.program(), "/opt/arfni-go");
    assert_eq!(
        launch.run.args(),
        &vec![
            "run".to_string(),
            "-f".to_string(),
            "/work/demo/stack.yaml".to_string(),
            "-project-dir".to_string(),
            "/work/demo".to_string(),
        ]
    );
    assert_eq!(launch.run.working_dir(), "/work/demo");
    assert!(!launch.run.has_outputs());
    assert_eq!(
        sink,
        vec![DeploymentEvent::Started(DeploymentStatus {
            status: "deploying".to_string(),
            message: Some("배포를 시작합니다...".to_string()),
            outputs: None,
        })]
    );
}

#[test]
fn second_start_while_running_fails_without_side_effects() {
    let mut supervisor = DeploymentSupervisor::new();
    let mut sink = Vec::new();
    let _run = started_run(&mut supervisor, &mut sink);
    supervisor.child_spawned(4711);
    let before = sink.clone();
    let again = deploy_stack(
        &mut supervisor,
        &mut sink,
        Ok("/opt/arfni-go".to_string()),
        "/work/other".to_string(),
        "/work/other/stack.yaml".to_string(),
    );
    assert_eq!(again.err(), Some("이미 배포가 진행 중입니다".to_string()));
    assert!(supervisor.is_running());
    assert_eq!(supervisor.child(), Some(4711));
    assert_eq!(sink, before);
    let unresolved = deploy_stack(
        &mut supervisor,
        &mut sink,
        Err("nothing found".to_string()),
        "/work/other".to_string(),
        "/work/other/stack.yaml".to_string(),
    );
    assert_eq!(unresolved.err(), Some("이미 배포가 진행 중입니다".to_string()));
    assert!(supervisor.is_running());
    assert_eq!(sink, before);
}

#[test]
fn scenario_resolution_fails() {
    let mut supervisor = DeploymentSupervisor::new();
    let mut sink = Vec::new();
    let result = deploy_stack(
        &mut supervisor,
        &mut sink,
        Err("no candidate exists".to_string()),
        "/work/demo".to_string(),
        "/work/demo/stack.yaml".to_string(),
    );
    assert_eq!(result.err(), Some("no candidate exists".to_string()));
    assert_eq!(sink, vec![failed("Go 바이너리를 찾을 수 없습니다: no candidate exists")]);
    assert!(!supervisor.is_running());
    let retry = deploy_stack(
        &mut supervisor,
        &mut sink,
        Ok("/opt/arfni-go".to_string()),
        "/work/demo".to_string(),
        "/work/demo/stack.yaml".to_string(),
    );
    assert!(retry.is_ok());
}

#[test]
fn scenario_success_with_outputs_and_three_plain_lines() {
    let mut supervisor = DeploymentSupervisor::new();
    let mut sink = Vec::new();
    let mut run = started_run(&mut supervisor, &mut sink);
    supervisor.child_spawned(100);
    sink.clear();
    run.on_stdout_line_at(&mut sink, "__OUTPUTS__{\"url\":\"http://x\"}".to_string(), "t0".to_string());
    assert!(sink.is_empty());
    assert!(run.has_outputs());
    run.on_stdout_line_at(&mut sink, "building".to_string(), "t1".to_string());
    run.on_stdout_line_at(&mut sink, "pushing".to_string(), "t2".to_string());
    run.on_stdout_line_at(&mut sink, "".to_string(), "t3".to_string());
    finish_deployment(&mut supervisor, &mut sink, run, RunOutcome::Exited(Some(0)));
    assert_eq!(
        sink,
        vec![
            info("t1", "building"),
            info("t2", "pushing"),
            info("t3", ""),
            DeploymentEvent::Completed(DeploymentStatus {
                status: "success".to_string(),
                message: Some("배포가 성공적으로 완료되었습니다".to_string()),
                outputs: Some(url_outputs()),
            }),
        ]
    );
    assert!(!supervisor.is_running());
    assert_eq!(supervisor.child(), None);
}

#[test]
fn scenario_exit_code_one() {
    let mut supervisor = DeploymentSupervisor::new();
    let mut sink = Vec::new();
    let run = started_run(&mut supervisor, &mut sink);
    sink.clear();
    finish_deployment(&mut supervisor, &mut sink, run, RunOutcome::Exited(Some(1)));
    assert_eq!(sink, vec![failed("배포 실패: 종료 코드 1")]);
    assert!(!supervisor.is_running());
}

#[test]
fn failure_reasons_for_each_outcome() {
    let cases = vec![
        (RunOutcome::Exited(None), "배포 실패: 종료 코드 -1"),
        (RunOutcome::Exited(Some(-7)), "배포 실패: 종료 코드 -7"),
        (RunOutcome::Exited(Some(137)), "배포 실패: 종료 코드 137"),
        (RunOutcome::Exited(Some(i32::MIN)), "배포 실패: 종료 코드 -2147483648"),
        (RunOutcome::SpawnFailed("permission denied".to_string()), "배포 명령 실행 실패: permission denied"),
        (RunOutcome::WaitFailed("interrupted".to_string()), "배포 프로세스 오류: interrupted"),
    ];
    for (outcome, message) in cases {
        let mut supervisor = DeploymentSupervisor::new();
        let mut sink = Vec::new();
        let mut run = started_run(&mut supervisor, &mut sink);
        run.on_stdout_line_at(&mut sink, "__OUTPUTS__1".to_string(), "t".to_string());
        sink.clear();
        finish_deployment(&mut supervisor, &mut sink, run, outcome);
        assert_eq!(sink, vec![failed(message)]);
        assert!(!supervisor.is_running());
    }
}

#[test]
fn completion_without_outputs_reports_none() {
    let mut supervisor = DeploymentSupervisor::new();
    let mut sink = Vec::new();
    let mut run = started_run(&mut supervisor, &mut sink);
    run.on_stdout_line_at(&mut sink, "__OUTPUTS__{oops".to_string(), "t".to_string());
    assert!(!run.has_outputs());
    sink.clear();
    finish_deployment(&mut supervisor, &mut sink, run, RunOutcome::Exited(Some(0)));
    assert_eq!(
        sink,
        vec![DeploymentEvent::Completed(DeploymentStatus {
            status: "success".to_string(),
            message: Some("배포가 성공적으로 완료되었습니다".to_string()),
            outputs: None,
        })]
    );
}

#[test]
fn later_payload_replaces_earlier_and_malformed_keeps_it() {
    let mut supervisor = DeploymentSupervisor::new();
    let mut sink = Vec::new();
    let mut run = started_run(&mut supervisor, &mut sink);
    sink.clear();
    run.on_stdout_line_at(&mut sink, "__OUTPUTS__1".to_string(), "t".to_string());
    run.on_stdout_line_at(&mut sink, "__OUTPUTS__{\"url\":\"http://x\"}".to_string(), "t".to_string());
    run.on_stdout_line_at(&mut sink, "__OUTPUTS__nonsense".to_string(), "t".to_string());
    finish_deployment(&mut supervisor, &mut sink, run, RunOutcome::Exited(Some(0)));
    assert_eq!(
        sink,
        vec![DeploymentEvent::Completed(DeploymentStatus {
            status: "success".to_string(),
            message: Some("배포가 성공적으로 완료되었습니다".to_string()),
            outputs: Some(url_outputs()),
        })]
    );
}

#[test]
fn structured_stdout_line_is_passed_through() {
    let mut supervisor = DeploymentSupervisor::new();
    let mut sink = Vec::new();
    let mut run = started_run(&mut supervisor, &mut sink);
    sink.clear();
    let line = "{\"type\":\"success\",\"timestamp\":\"2024-05-01T10:00:00Z\",\"message\":\"up\"}";
    run.on_stdout_line_at(&mut sink, line.to_string(), "arrival".to_string());
    assert_eq!(
        sink,
        vec![DeploymentEvent::Log(DeploymentLog {
            timestamp: "2024-05-01T10:00:00Z".to_string(),
            level: "success".to_string(),
            message: "up".to_string(),
            data: None,
        })]
    );
}

#[test]
fn stdout_line_without_given_time_is_stamped_by_the_clock() {
    let mut supervisor = DeploymentSupervisor::new();
    let mut sink = Vec::new();
    let mut run = started_run(&mut supervisor, &mut sink);
    sink.clear();
    run.on_stdout_line(&mut sink, "hello".to_string());
    run.on_stdout_line(&mut sink, "__OUTPUTS__true".to_string());
    assert_eq!(sink.len(), 1);
    match &sink[0] {
        DeploymentEvent::Log(log) => {
            assert_eq!(log.message, "hello");
            assert_eq!(log.level, "info");
            assert_eq!(log.data, None);
            assert_ne!(log.timestamp, "hello");
            assert!(log.timestamp.len() >= 20);
        }
        other => panic!("unexpected event {:?}", other),
    }
    assert!(run.has_outputs());
}

#[test]
fn stderr_lines_are_errors() {
    let mut sink = Vec::new();
    on_stderr_line_at(&mut sink, "__OUTPUTS__1".to_string(), "t9".to_string());
    assert_eq!(
        sink,
        vec![DeploymentEvent::Log(DeploymentLog {
            timestamp: "t9".to_string(),
            level: "error".to_string(),
            message: "__OUTPUTS__1".to_string(),
            data: None,
        })]
    );
    on_stderr_line(&mut sink, "boom".to_string());
    assert_eq!(sink.len(), 2);
    match &sink[1] {
        DeploymentEvent::Log(log) => {
            assert_eq!(log.message, "boom");
            assert_eq!(log.level, "error");
        }
        other => panic!("unexpected event {:?}", other),
    }
}

#[test]
fn stop_hands_back_the_child_and_is_idempotent() {
    let mut supervisor = DeploymentSupervisor::new();
    let mut sink = Vec::new();
    let _run = started_run(&mut supervisor, &mut sink);
    supervisor.child_spawned(4242);
    assert_eq!(supervisor.child(), Some(4242));
    assert_eq!(stop_deployment(&mut supervisor), Ok(Some(4242)));
    assert!(!supervisor.is_running());
    assert_eq!(supervisor.child(), None);
    assert_eq!(stop_deployment(&mut supervisor), Ok(None));
    assert!(!supervisor.is_running());
}

#[test]
fn reset_reports_whether_the_flag_was_up() {
    let mut supervisor = DeploymentSupervisor::new();
    let mut sink = Vec::new();
    assert_eq!(reset_deployment_state(&mut supervisor), Ok(false));
    let _run = started_run(&mut supervisor, &mut sink);
    assert_eq!(reset_deployment_state(&mut supervisor), Ok(true));
    assert!(!supervisor.is_running());
    assert_eq!(reset_deployment_state(&mut supervisor), Ok(false));
    assert!(!supervisor.is_running());
}

#[test]
fn flag_is_down_after_every_terminal_path() {
    let mut supervisor = DeploymentSupervisor::new();
    let mut sink = Vec::new();
    let run = started_run(&mut supervisor, &mut sink);
    assert_eq!(stop_deployment(&mut supervisor), Ok(None));
    finish_deployment(&mut supervisor, &mut sink, run, RunOutcome::Exited(None));
    assert!(!supervisor.is_running());
    assert_eq!(reset_deployment_state(&mut supervisor), Ok(false));
    assert_eq!(stop_deployment(&mut supervisor), Ok(None));
    assert!(!supervisor.is_running());
}

fn stamped(line: &str, arrival: &str) -> StampedLine {
    StampedLine { line: line.to_string(), arrival: arrival.to_string() }
}

#[test]
fn stream_of_lines_gives_one_log_event_per_line_without_the_marker() {
    let mut supervisor = DeploymentSupervisor::new();
    let mut sink = Vec::new();
    let mut run = started_run(&mut supervisor, &mut sink);
    sink.clear();
    let lines = vec![
        stamped("pulling", "t0"),
        stamped("__OUTPUTS__{\"url\":\"http://x\"}", "t1"),
        stamped("", "t2"),
        stamped("{\"type\":\"warning\",\"timestamp\":\"then\",\"message\":\"slow\"}", "t3"),
        stamped("note __OUTPUTS__ broken", "t4"),
        stamped("done", "t5"),
    ];
    run.on_stdout_lines_at(&mut sink, lines);
    assert_eq!(
        sink,
        vec![
            info("t0", "pulling"),
            info("t2", ""),
            DeploymentEvent::Log(DeploymentLog {
                timestamp: "then".to_string(),
                level: "warning".to_string(),
                message: "slow".to_string(),
                data: None,
            }),
            info("t5", "done"),
        ]
    );
    assert!(run.has_outputs());
    finish_deployment(&mut supervisor, &mut sink, run, RunOutcome::Exited(Some(0)));
    assert_eq!(sink.len(), 5);
    assert_eq!(
        sink[4],
        DeploymentEvent::Completed(DeploymentStatus {
            status: "success".to_string(),
            message: Some("배포가 성공적으로 완료되었습니다".to_string()),
            outputs: Some(url_outputs()),
        })
    );
    assert!(!supervisor.is_running());
}

#[test]
fn stream_with_a_malformed_payload_completes_without_outputs() {
    let mut supervisor = DeploymentSupervisor::new();
    let mut sink = Vec::new();
    let mut run = started_run(&mut supervisor, &mut sink);
    sink.clear();
    let lines = vec![
        stamped("one", "t0"),
        stamped("__OUTPUTS__{\"url\":", "t1"),
        stamped("two", "t2"),
        stamped("three", "t3"),
    ];
    run.on_stdout_lines_at(&mut sink, lines);
    assert!(!run.has_outputs());
    finish_deployment(&mut supervisor, &mut sink, run, RunOutcome::Exited(Some(0)));
    assert_eq!(
        sink,
        vec![
            info("t0", "one"),
            info("t2", "two"),
            info("t3", "three"),
            DeploymentEvent::Completed(DeploymentStatus {
                status: "success".to_string(),
                message: Some("배포가 성공적으로 완료되었습니다".to_string()),
                outputs: None,
            }),
        ]
    );
}

#[test]
fn empty_stream_changes_nothing() {
    let mut supervisor = DeploymentSupervisor::new();
    let mut sink = Vec::new();
    let mut run = started_run(&mut supervisor, &mut sink);
    sink.clear();
    run.on_stdout_lines_at(&mut sink, Vec::new());
    assert!(sink.is_empty());
    assert!(!run.has_outputs());
}
