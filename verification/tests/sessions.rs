use arfni_gui::commands::ssh_it::{ssh_close, ssh_send, ssh_start};
use arfni_gui::features::ssh_rt::{
    close_all_sessions, close_session, connect_interactive, next_command, on_stderr_line,
    on_stdout_line, register_session, send_command, start_interactive_session, terminate_line,
    SessionError, SessionEvent, SessionRegistry, SshDataEvent, SshParams,
};
use uuid::Uuid;

fn closed(id: &Uuid) -> SessionEvent {
    SessionEvent::Closed(SshDataEvent { id: id.to_string(), chunk: "session closed".to_string() })
}

#[test]
fn scenario_start_send_twice_close() {
    let mut registry = SessionRegistry::new();
    let mut sink = Vec::new();
    let id = start_interactive_session(&mut registry, Ok(())).unwrap();
    assert!(registry.contains(&id));
    assert_eq!(registry.len(), 1);
    assert_eq!(send_command(&mut registry, id, "ls\n".to_string()), Ok(()));
    assert_eq!(send_command(&mut registry, id, "pwd".to_string()), Ok(()));
    assert_eq!(registry.pending(&id), Some(2));
    assert_eq!(next_command(&mut registry, &id), Some("ls\n".to_string()));
    assert_eq!(next_command(&mut registry, &id), Some("pwd\n".to_string()));
    assert_eq!(next_command(&mut registry, &id), None);
    assert_eq!(close_session(&mut registry, &mut sink, id), Ok(()));
    assert!(!registry.contains(&id));
    assert_eq!(
        send_command(&mut registry, id, "whoami".to_string()),
        Err(SessionError::NotFound)
    );
    assert_eq!(SessionError::NotFound.message(), "session not found");
    assert_eq!(sink, vec![closed(&id)]);
    assert_eq!(close_session(&mut registry, &mut sink, id), Err(SessionError::NotFound));
    assert_eq!(sink.len(), 1);
}

#[test]
fn failed_connection_registers_nothing() {
    let mut registry = SessionRegistry::new();
    let result = start_interactive_session(&mut registry, Err("failed to spawn ssh".to_string()));
    assert_eq!(result, Err(SessionError::Connect("failed to spawn ssh".to_string())));
    assert_eq!(result.unwrap_err().message(), "failed to spawn ssh");
    assert_eq!(registry.len(), 0);
}

#[test]
fn fresh_identifiers_differ() {
    let mut registry = SessionRegistry::new();
    let a = start_interactive_session(&mut registry, Ok(())).unwrap();
    let b = start_interactive_session(&mut registry, Ok(())).unwrap();
    assert_ne!(a, b);
    assert_eq!(a.get_version_num(), 4);
    assert_eq!(registry.len(), 2);
}

#[test]
fn identifier_in_use_is_refused() {
    let mut registry = SessionRegistry::new();
    let id = Uuid::from_u128(0x0123_4567_89ab_cdef_0123_4567_89ab_cdef);
    assert_eq!(register_session(&mut registry, id), Ok(id));
    assert_eq!(send_command(&mut registry, id, "ls".to_string()), Ok(()));
    assert_eq!(register_session(&mut registry, id), Err(SessionError::IdInUse));
    assert_eq!(SessionError::IdInUse.message(), "session identifier already in use");
    assert_eq!(registry.len(), 1);
    assert_eq!(registry.pending(&id), Some(1));
}

#[test]
fn unknown_session_is_not_found() {
    let mut registry = SessionRegistry::new();
    let mut sink = Vec::new();
    let known = start_interactive_session(&mut registry, Ok(())).unwrap();
    let unknown = Uuid::from_u128(7);
    assert_eq!(send_command(&mut registry, unknown, "ls".to_string()), Err(SessionError::NotFound));
    assert_eq!(close_session(&mut registry, &mut sink, unknown), Err(SessionError::NotFound));
    assert_eq!(next_command(&mut registry, &unknown), None);
    assert_eq!(registry.pending(&unknown), None);
    assert!(sink.is_empty());
    assert_eq!(registry.len(), 1);
    assert_eq!(registry.pending(&known), Some(0));
}

#[test]
fn queues_are_kept_per_session() {
    let mut registry = SessionRegistry::new();
    let a = Uuid::from_u128(1);
    let b = Uuid::from_u128(2);
    register_session(&mut registry, a).unwrap();
    register_session(&mut registry, b).unwrap();
    send_command(&mut registry, a, "one".to_string()).unwrap();
    send_command(&mut registry, b, "two\n".to_string()).unwrap();
    send_command(&mut registry, a, "three".to_string()).unwrap();
    assert_eq!(next_command(&mut registry, &b), Some("two\n".to_string()));
    assert_eq!(next_command(&mut registry, &b), None);
    assert_eq!(next_command(&mut registry, &a), Some("one\n".to_string()));
    assert_eq!(next_command(&mut registry, &a), Some("three\n".to_string()));
}

#[test]
fn commands_get_a_line_end_only_where_missing() {
    assert_eq!(terminate_line("ls".to_string()), "ls\n");
    assert_eq!(terminate_line("ls\n".to_string()), "ls\n");
    assert_eq!(terminate_line("".to_string()), "\n");
    assert_eq!(terminate_line("\n".to_string()), "\n");
    assert_eq!(terminate_line("a\nb".to_string()), "a\nb\n");
    assert_eq!(terminate_line("echo 한글".to_string()), "echo 한글\n");
}

#[test]
fn output_lines_are_tagged_with_the_identifier() {
    let mut registry = SessionRegistry::new();
    let mut sink = Vec::new();
    let id = Uuid::from_u128(0x550e8400_e29b_41d4_a716_446655440000);
    register_session(&mut registry, id).unwrap();
    assert!(on_stdout_line(&registry, &mut sink, &id, "total 0".to_string()));
    on_stderr_line(&mut sink, &id, "warning".to_string());
    assert_eq!(
        sink,
        vec![
            SessionEvent::Data(SshDataEvent {
                id: "550e8400-e29b-41d4-a716-446655440000".to_string(),
                chunk: "total 0".to_string(),
            }),
            SessionEvent::Stderr(SshDataEvent {
                id: "550e8400-e29b-41d4-a716-446655440000".to_string(),
                chunk: "warning".to_string(),
            }),
        ]
    );
    assert_eq!(sink[0].name(), "ssh:data");
    assert_eq!(sink[1].name(), "ssh:stderr");
    assert_eq!(closed(&id).name(), "ssh:closed");
}

#[test]
fn reader_of_a_closed_session_stops_without_emitting() {
    let mut registry = SessionRegistry::new();
    let mut sink = Vec::new();
    let id = start_interactive_session(&mut registry, Ok(())).unwrap();
    close_session(&mut registry, &mut sink, id).unwrap();
    sink.clear();
    assert!(!on_stdout_line(&registry, &mut sink, &id, "late".to_string()));
    assert!(sink.is_empty());
}

#[test]
fn bulk_teardown_closes_every_session_once() {
    let mut registry = SessionRegistry::new();
    let mut sink = Vec::new();
    let mut started = Vec::new();
    for _ in 0..5 {
        started.push(start_interactive_session(&mut registry, Ok(())).unwrap());
    }
    close_session(&mut registry, &mut sink, started[2]).unwrap();
    sink.clear();
    let mut closed_ids = close_all_sessions(&mut registry, &mut sink);
    assert_eq!(registry.len(), 0);
    assert_eq!(sink.len(), 4);
    let expected: Vec<SessionEvent> = closed_ids.iter().map(closed).collect();
    assert_eq!(sink, expected);
    closed_ids.sort();
    let mut remaining = vec![started[0], started[1], started[3], started[4]];
    remaining.sort();
    assert_eq!(closed_ids, remaining);
    for id in started {
        assert_eq!(send_command(&mut registry, id, "ls".to_string()), Err(SessionError::NotFound));
    }
    assert!(close_all_sessions(&mut registry, &mut sink).is_empty());
    assert_eq!(sink.len(), 4);
}

#[test]
fn interactive_client_arguments() {
    let params = SshParams {
        host: "ec2-1-2-3-4.amazonaws.com".to_string(),
        user: "ec2-user".to_string(),
        pem_path: "/keys/a.pem".to_string(),
    };
    assert_eq!(
        connect_interactive(&params),
        vec![
            "-i",
            "/keys/a.pem",
            "-tt",
            "-o",
            "StrictHostKeyChecking=accept-new",
            "ec2-user@ec2-1-2-3-4.amazonaws.com",
        ]
    );
}

#[test]
fn sessions_addressed_by_text() {
    let mut registry = SessionRegistry::new();
    let mut sink = Vec::new();
    let id = ssh_start(&mut registry, Ok(())).unwrap();
    let parsed = Uuid::parse_str(&id).unwrap();
    assert_eq!(id, parsed.to_string());
    assert!(registry.contains(&parsed));
    assert_eq!(ssh_send(&mut registry, id.clone(), "ls".to_string()), Ok(()));
    assert_eq!(ssh_send(&mut registry, id.to_uppercase(), "pwd\n".to_string()), Ok(()));
    assert_eq!(next_command(&mut registry, &parsed), Some("ls\n".to_string()));
    assert_eq!(next_command(&mut registry, &parsed), Some("pwd\n".to_string()));
    assert_eq!(ssh_close(&mut registry, &mut sink, id.clone()), Ok(()));
    assert_eq!(sink, vec![closed(&parsed)]);
    assert_eq!(
        ssh_send(&mut registry, id.clone(), "ls".to_string()),
        Err("session not found".to_string())
    );
    assert_eq!(ssh_close(&mut registry, &mut sink, id), Err("session not found".to_string()));
    assert_eq!(sink.len(), 1);
}

#[test]
fn text_that_is_no_identifier_is_not_found() {
    let mut registry = SessionRegistry::new();
    let mut sink = Vec::new();
    let id = ssh_start(&mut registry, Ok(())).unwrap();
    for text in ["abc", "", "not-an-id", "550e8400-e29b-41d4-a716-44665544000", "한글"] {
        assert_eq!(
            ssh_send(&mut registry, text.to_string(), "ls".to_string()),
            Err("session not found".to_string())
        );
        assert_eq!(
            ssh_close(&mut registry, &mut sink, text.to_string()),
            Err("session not found".to_string())
        );
    }
    assert_eq!(
        ssh_send(
            &mut registry,
            "550e8400-e29b-41d4-a716-446655440000".to_string(),
            "ls".to_string()
        ),
        Err("session not found".to_string())
    );
    assert!(sink.is_empty());
    assert_eq!(registry.len(), 1);
    assert_eq!(registry.pending(&Uuid::parse_str(&id).unwrap()), Some(0));
}

#[test]
fn start_succeeds_while_no_session_is_live() {
    for _ in 0..20 {
        let mut registry = SessionRegistry::new();
        assert!(start_interactive_session(&mut registry, Ok(())).is_ok());
        let mut other = SessionRegistry::new();
        assert!(ssh_start(&mut other, Ok(())).is_ok());
    }
}

#[test]
fn start_by_text_reports_a_failed_connection() {
    let mut registry = SessionRegistry::new();
    assert_eq!(
        ssh_start(&mut registry, Err("failed to open stdin".to_string())),
        Err("failed to open stdin".to_string())
    );
    assert_eq!(registry.len(), 0);
}
