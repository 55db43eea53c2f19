use arfni_gui::commands::project::CanvasEdge;
use arfni_gui::commands::ssh::{
    create_failure_message, delete_ec2_server, ec2_delete_entry, ec2_read_entry, new_ec2_server,
    planned_updates, CreateEC2ServerParams, DeletePayload, EC2Server, FieldUpdate, SshSimpleParams,
    UpdateEC2ServerParams,
};
use arfni_gui::features::ssh_exec::{
    add_or_update_entry, delete_entry, entry_le, exec_once_args, exec_once_via_system_ssh,
    find_entry, read_all_entries, sort_entries, update_entry, SshParams, SshRun,
};

fn entry(host: &str, user: &str, pem: &str) -> SshParams {
    SshParams { host: host.to_string(), user: user.to_string(), pem_path: pem.to_string() }
}

#[test]
fn adding_keeps_the_list_in_order_of_host_and_user() {
    let mut list = Vec::new();
    add_or_update_entry(&mut list, entry("b.example", "root", "1"));
    add_or_update_entry(&mut list, entry("a.example", "ubuntu", "2"));
    add_or_update_entry(&mut list, entry("a.example", "ec2-user", "3"));
    add_or_update_entry(&mut list, entry("a.example.com", "a", "4"));
    add_or_update_entry(&mut list, entry("a", "z", "5"));
    assert_eq!(
        list,
        vec![
            entry("a", "z", "5"),
            entry("a.example", "ec2-user", "3"),
            entry("a.example", "ubuntu", "2"),
            entry("a.example.com", "a", "4"),
            entry("b.example", "root", "1"),
        ]
    );
}

#[test]
fn adding_an_entry_for_a_known_host_and_user_replaces_the_key_file() {
    let mut list = vec![entry("a", "u", "old"), entry("b", "u", "keep")];
    add_or_update_entry(&mut list, entry("a", "u", "new"));
    assert_eq!(list, vec![entry("a", "u", "new"), entry("b", "u", "keep")]);
}

#[test]
fn adding_updates_only_the_first_of_several_entries_for_one_key() {
    let mut list = vec![entry("z", "u", "0"), entry("a", "u", "1"), entry("a", "u", "2")];
    add_or_update_entry(&mut list, entry("a", "u", "9"));
    assert_eq!(list, vec![entry("a", "u", "9"), entry("a", "u", "2"), entry("z", "u", "0")]);
}

#[test]
fn sorting_is_stable_and_orders_as_the_standard_order_of_strings() {
    let mut list = vec![
        entry("b", "x", "1"),
        entry("a", "y", "2"),
        entry("b", "x", "3"),
        entry("a", "", "4"),
        entry("B", "x", "5"),
        entry("é", "x", "6"),
        entry("a", "y", "7"),
        entry("ab", "", "8"),
    ];
    let mut expected = list.clone();
    expected.sort_by(|a, b| {
        (a.host.as_str(), a.user.as_str()).cmp(&(b.host.as_str(), b.user.as_str()))
    });
    sort_entries(&mut list);
    assert_eq!(list, expected);
    assert_eq!(list[0], entry("B", "x", "5"));
    assert_eq!(list[2], entry("a", "y", "2"));
    assert_eq!(list[3], entry("a", "y", "7"));
}

#[test]
fn order_of_entries() {
    assert!(entry_le(&entry("a", "b", ""), &entry("a", "b", "zzz")));
    assert!(entry_le(&entry("a", "b", ""), &entry("a", "c", "")));
    assert!(!entry_le(&entry("a", "c", ""), &entry("a", "b", "")));
    assert!(entry_le(&entry("a", "z", ""), &entry("b", "a", "")));
    assert!(!entry_le(&entry("b", "a", ""), &entry("a", "z", "")));
    assert!(entry_le(&entry("", "", ""), &entry("", "", "")));
    assert!(entry_le(&entry("a", "", ""), &entry("ab", "", "")));
    assert!(!entry_le(&entry("ab", "", ""), &entry("a", "", "")));
    assert!(entry_le(&entry("z", "", ""), &entry("가", "", "")));
}

#[test]
fn deleting_removes_every_entry_for_the_key() {
    let mut list = vec![
        entry("a", "u", "1"),
        entry("b", "u", "2"),
        entry("a", "u", "3"),
        entry("a", "v", "4"),
    ];
    assert!(delete_entry(&mut list, "a", "u"));
    assert_eq!(list, vec![entry("b", "u", "2"), entry("a", "v", "4")]);
    assert!(!delete_entry(&mut list, "a", "u"));
    assert!(!delete_entry(&mut list, "b", "v"));
    assert_eq!(list, vec![entry("b", "u", "2"), entry("a", "v", "4")]);
    let mut empty: Vec<SshParams> = Vec::new();
    assert!(!delete_entry(&mut empty, "a", "u"));
}

#[test]
fn updating_changes_the_key_file_of_the_first_match() {
    let mut list = vec![entry("a", "u", "1"), entry("b", "u", "2"), entry("b", "u", "3")];
    assert!(update_entry(&mut list, "b", "u", Some("9".to_string())));
    assert_eq!(list, vec![entry("a", "u", "1"), entry("b", "u", "9"), entry("b", "u", "3")]);
    assert!(!update_entry(&mut list, "b", "u", Some("9".to_string())));
    assert!(!update_entry(&mut list, "b", "u", None));
    assert!(!update_entry(&mut list, "c", "u", Some("9".to_string())));
    assert!(!update_entry(&mut list, "a", "v", Some("9".to_string())));
    assert_eq!(list, vec![entry("a", "u", "1"), entry("b", "u", "9"), entry("b", "u", "3")]);
}

#[test]
fn finding_an_entry() {
    let list = vec![entry("a", "u", "1"), entry("b", "u", "2"), entry("b", "u", "3")];
    assert_eq!(find_entry(&list, "a", "u"), 0);
    assert_eq!(find_entry(&list, "b", "u"), 1);
    assert_eq!(find_entry(&list, "b", "v"), 3);
    assert_eq!(find_entry(&Vec::new(), "b", "v"), 0);
}

#[test]
fn nothing_stored_means_no_entries() {
    assert_eq!(read_all_entries(None), Vec::new());
    assert_eq!(read_all_entries(Some(vec![entry("a", "u", "1")])), vec![entry("a", "u", "1")]);
}

#[test]
fn client_arguments_for_one_command() {
    assert_eq!(
        exec_once_args("h.example", "ec2-user", "/k.pem", "docker ps"),
        vec![
            "-i",
            "/k.pem",
            "-o",
            "StrictHostKeyChecking=accept-new",
            "ec2-user@h.example",
            "docker ps",
        ]
    );
}

#[test]
fn answers_to_one_command() {
    assert_eq!(exec_once_via_system_ssh(SshRun::NotStarted), Err("failed to spawn ssh".to_string()));
    assert_eq!(
        exec_once_via_system_ssh(SshRun::Finished {
            success: true,
            code: Some(0),
            stdout: " CONTAINER ID \n".to_string(),
            stderr: "warning".to_string(),
        }),
        Ok(" CONTAINER ID \n".to_string())
    );
    assert_eq!(
        exec_once_via_system_ssh(SshRun::Finished {
            success: false,
            code: Some(255),
            stdout: "".to_string(),
            stderr: "Permission denied (publickey).\n".to_string(),
        }),
        Err("ssh exited with status Some(255): Permission denied (publickey).\n".to_string())
    );
    assert_eq!(
        exec_once_via_system_ssh(SshRun::Finished {
            success: false,
            code: None,
            stdout: "".to_string(),
            stderr: "killed".to_string(),
        }),
        Err(format!("ssh exited with status {:?}: {}", None::<i32>, "killed"))
    );
    assert_eq!(
        exec_once_via_system_ssh(SshRun::Finished {
            success: false,
            code: Some(-3),
            stdout: "".to_string(),
            stderr: "".to_string(),
        }),
        Err(format!("ssh exited with status {:?}: {}", Some(-3), ""))
    );
}

fn server(id: &str, host: &str, user: &str, pem: &str) -> EC2Server {
    EC2Server {
        id: id.to_string(),
        name: format!("server {}", id),
        host: host.to_string(),
        user: user.to_string(),
        pem_path: pem.to_string(),
        created_at: "2024-01-01T00:00:00+00:00".to_string(),
        updated_at: "2024-01-02T00:00:00+00:00".to_string(),
        last_connected_at: Some("2024-01-03T00:00:00+00:00".to_string()),
    }
}

#[test]
fn new_server_record() {
    let params = CreateEC2ServerParams {
        name: "build".to_string(),
        host: "10.0.0.1".to_string(),
        user: "ubuntu".to_string(),
        pem_path: "/k.pem".to_string(),
    };
    assert_eq!(
        new_ec2_server("id-1".to_string(), "2024-05-01T10:00:00+00:00".to_string(), params),
        EC2Server {
            id: "id-1".to_string(),
            name: "build".to_string(),
            host: "10.0.0.1".to_string(),
            user: "ubuntu".to_string(),
            pem_path: "/k.pem".to_string(),
            created_at: "2024-05-01T10:00:00+00:00".to_string(),
            updated_at: "2024-05-01T10:00:00+00:00".to_string(),
            last_connected_at: None,
        }
    );
}

#[test]
fn refusal_of_a_new_server() {
    assert_eq!(
        create_failure_message("UNIQUE constraint failed: ec2_servers.host, ec2_servers.user", "ubuntu", "10.0.0.1"),
        "이미 존재하는 서버입니다: ubuntu@10.0.0.1"
    );
    assert_eq!(
        create_failure_message("disk I/O error", "ubuntu", "10.0.0.1"),
        "EC2 서버 생성 실패: disk I/O error"
    );
    assert_eq!(create_failure_message("", "u", "h"), "EC2 서버 생성 실패: ");
}

#[test]
fn planned_column_updates() {
    let all = UpdateEC2ServerParams {
        id: "id-1".to_string(),
        name: Some("n".to_string()),
        host: Some("h".to_string()),
        user: Some("u".to_string()),
        pem_path: Some("p".to_string()),
    };
    let update = |column: &str, value: &str| FieldUpdate {
        column: column.to_string(),
        value: value.to_string(),
    };
    assert_eq!(
        planned_updates(&all),
        vec![update("name", "n"), update("host", "h"), update("user", "u"), update("pem_path", "p")]
    );
    let some = UpdateEC2ServerParams {
        id: "id-1".to_string(),
        name: None,
        host: Some("h".to_string()),
        user: None,
        pem_path: Some("p".to_string()),
    };
    assert_eq!(planned_updates(&some), vec![update("host", "h"), update("pem_path", "p")]);
    let none = UpdateEC2ServerParams {
        id: "id-1".to_string(),
        name: None,
        host: None,
        user: None,
        pem_path: None,
    };
    assert_eq!(planned_updates(&none), Vec::new());
}

#[test]
fn servers_as_targets() {
    let list = vec![server("2", "b", "root", "/2.pem"), server("1", "a", "ubuntu", "/1.pem")];
    assert_eq!(
        ec2_read_entry(list),
        vec![entry("b", "root", "/2.pem"), entry("a", "ubuntu", "/1.pem")]
    );
    assert_eq!(ec2_read_entry(Vec::new()), Vec::new());
}

#[test]
fn deleting_a_server_that_does_not_exist() {
    assert_eq!(delete_ec2_server(0), Err("존재하지 않는 서버입니다".to_string()));
    assert_eq!(delete_ec2_server(1), Ok(()));
}

#[test]
fn one_command_parameters_are_plain_data() {
    let params = SshSimpleParams {
        host: "h".to_string(),
        user: "u".to_string(),
        pem_path: "p".to_string(),
        cmd: "uptime".to_string(),
    };
    assert_eq!(
        exec_once_args(&params.host, &params.user, &params.pem_path, &params.cmd),
        vec!["-i", "p", "-o", "StrictHostKeyChecking=accept-new", "u@h", "uptime"]
    );
}

#[test]
fn test_ssh_via_system() {
    let host = "";
    let user = "ec2-user";
    let pem = r"";
    let cmd = "docker ps";

    let args = exec_once_args(host, user, pem, cmd);
    assert_eq!(
        args,
        vec!["-i", "", "-o", "StrictHostKeyChecking=accept-new", "ec2-user@", "docker ps"]
    );
    let run = SshRun::Finished {
        success: true,
        code: Some(0),
        stdout: "CONTAINER ID   IMAGE\n".to_string(),
        stderr: String::new(),
    };
    let out = exec_once_via_system_ssh(run).expect("system ssh failed");
    println!("SSH via system:\n{out}");
    assert_eq!(out, "CONTAINER ID   IMAGE\n");
}

#[test]
fn deleting_the_server_of_a_host_and_user() {
    let payload = DeletePayload { host: "a".to_string(), user: "u".to_string() };
    let mut list = vec![entry("a", "u", "1"), entry("b", "u", "2")];
    assert!(delete_entry(&mut list, &payload.host, &payload.user));
    assert_eq!(list, vec![entry("b", "u", "2")]);
    assert_eq!(ec2_delete_entry(0), Ok(false));
    assert_eq!(ec2_delete_entry(1), Ok(true));
    assert_eq!(ec2_delete_entry(3), Ok(true));
}

#[test]
fn canvas_edges_are_plain_data() {
    let edge = CanvasEdge { id: "e1".to_string(), source: "n1".to_string(), target: "n2".to_string() };
    assert_eq!(edge.clone(), edge);
    assert_eq!(edge.source, "n1");
    assert_eq!(edge.target, "n2");
}
