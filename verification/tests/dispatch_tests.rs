use exex::config::{default_config_with, missing_critical_paths};
use exex::dispatch::{
    absorb_listing, copy_list, create_action, delete_action, denial_text, exec_plan_from,
    failure_status, failure_text, gate_from, health_report, is_listed, labelled,
    launch_for_exec, open_plan_from, path_gate, plan_exec, plan_open, refusal_status, refuse,
    rename_gate, rename_gate_from, rename_obstacle, shutdown_notice, CreateAction,
    DeleteAction, Denial, Failure, STATUS_FORBIDDEN, STATUS_OK, STATUS_SERVER_ERROR,
};
use exex::models::{CreateRequest, ExecRequest, FileInfo, OpenAppRequest, RenameRequest};
use exex::paths::Platform;
use exex::security::SecurityManager;

fn security(whitelist: Vec<&str>, blacklist: Vec<&str>, denied: Vec<&str>) -> SecurityManager {
    let mut config = default_config_with(Platform::Linux, "audit.log".to_string());
    config.security.allowed_paths = vec![];
    config.security.disallowed_paths = denied.into_iter().map(String::from).collect();
    config.security.command_whitelist = whitelist.into_iter().map(String::from).collect();
    config.security.command_blacklist = Some(blacklist.into_iter().map(String::from).collect());
    SecurityManager::new(config, Platform::Linux)
}

fn exec(command: &str, args: Option<Vec<&str>>, cwd: Option<&str>) -> ExecRequest {
    ExecRequest {
        command: command.to_string(),
        args: args.map(|list| list.into_iter().map(String::from).collect()),
        cwd: cwd.map(String::from),
    }
}

fn entry(name: &str, path: &str, is_directory: bool) -> FileInfo {
    FileInfo {
        name: name.to_string(),
        path: path.to_string(),
        is_directory,
        size: None,
        modified: None,
        created: None,
        permissions: None,
    }
}

#[test]
fn refusals_and_failures_have_their_messages() {
    assert_eq!(labelled("a: ", "b"), "a: b");
    assert_eq!(
        denial_text(Denial::Command, "rm -rf /"),
        "Command 'rm -rf /' is not allowed by security policy"
    );
    assert_eq!(denial_text(Denial::File, "/etc/passwd"), "Access denied to file: /etc/passwd");
    assert_eq!(denial_text(Denial::Directory, "/etc"), "Access denied to directory: /etc");
    assert_eq!(denial_text(Denial::Delete, "/x"), "Access denied to delete: /x");
    assert_eq!(denial_text(Denial::Create, "/x"), "Access denied to create: /x");
    assert_eq!(denial_text(Denial::Source, "/x"), "Access denied to source path: /x");
    assert_eq!(denial_text(Denial::Destination, "/x"), "Access denied to destination path: /x");
    assert_eq!(denial_text(Denial::Application, "/x"), "Access denied to application: /x");
    assert_eq!(denial_text(Denial::UnsafeApplication, "/x"), "Application deemed unsafe: /x");
    assert_eq!(
        denial_text(Denial::WorkingDirectory, "/x"),
        "Access denied to working directory: /x"
    );
    assert_eq!(failure_text(Failure::ExecIo, "e"), "IO error executing command: e");
    assert_eq!(failure_text(Failure::ExecBlocked, "e"), "Failed to execute command: e");
    assert_eq!(failure_text(Failure::ReadFile, "e"), "Failed to read file: e");
    assert_eq!(failure_text(Failure::CreateDirectories, "e"), "Failed to create directories: e");
    assert_eq!(failure_text(Failure::WriteFile, "e"), "Failed to write file: e");
    assert_eq!(failure_text(Failure::ScanDirectory, "e"), "Failed to scan directory: e");
    assert_eq!(failure_text(Failure::Delete, "e"), "Failed to delete: e");
    assert_eq!(
        failure_text(Failure::CreateParents, "e"),
        "Failed to create parent directories: e"
    );
    assert_eq!(failure_text(Failure::Create, "e"), "Failed to create: e");
    assert_eq!(failure_text(Failure::Rename, "e"), "Failed to rename/move: e");
    assert_eq!(failure_text(Failure::Launch, "e"), "Failed to launch application: e");
}

#[test]
fn denials_and_failures_are_told_apart_by_status() {
    assert_eq!(refusal_status(), 403);
    assert_eq!(STATUS_FORBIDDEN, 403);
    assert_eq!(STATUS_OK, 200);
    assert_eq!(STATUS_SERVER_ERROR, 500);
    assert_eq!(failure_status(Failure::ExecIo), 500);
    assert_eq!(failure_status(Failure::ExecBlocked), 500);
    assert_eq!(failure_status(Failure::ReadFile), 200);
    assert_eq!(failure_status(Failure::Rename), 200);
    assert_eq!(failure_status(Failure::Launch), 200);
}

#[test]
fn path_gate_refuses_what_the_policy_denies() {
    let security = security(vec![], vec![], vec!["/etc/"]);
    assert!(path_gate(&security, Denial::File, "/tmp/exex-new-file.txt").is_none());
    let refusal = path_gate(&security, Denial::File, "/etc/passwd").unwrap();
    assert_eq!(refusal.kind, Denial::File);
    assert_eq!(refusal.message, "Access denied to file: /etc/passwd");
    let refusal = path_gate(&security, Denial::Delete, "/no-such-exex/a/b").unwrap();
    assert_eq!(refusal.message, "Access denied to delete: /no-such-exex/a/b");
}

#[test]
fn exec_checks_the_command_before_the_directory() {
    let security = security(vec!["echo", "ls"], vec!["rm"], vec!["/etc/"]);

    let refusal = plan_exec(&security, &exec("rm -rf /", None, Some("/etc")), Platform::Linux)
        .unwrap_err();
    assert_eq!(refusal.kind, Denial::Command);
    assert_eq!(refusal.message, "Command 'rm -rf /' is not allowed by security policy");

    let refusal = plan_exec(&security, &exec("git status", None, None), Platform::Linux)
        .unwrap_err();
    assert_eq!(refusal.kind, Denial::Command);

    let refusal = plan_exec(&security, &exec("echo hi", None, Some("/etc")), Platform::Linux)
        .unwrap_err();
    assert_eq!(refusal.kind, Denial::Directory);
    assert_eq!(refusal.message, "Access denied to directory: /etc");

    let launch = plan_exec(&security, &exec("echo hi", None, Some("/tmp")), Platform::Linux)
        .unwrap();
    assert_eq!(launch.program, "sh");
    assert_eq!(launch.args, vec!["-c".to_string(), "echo hi".to_string()]);
    assert_eq!(launch.cwd, Some("/tmp".to_string()));
}

#[test]
fn exec_runs_directly_with_separate_arguments() {
    let request = exec("ls", Some(vec!["-l", "-a"]), None);
    let launch = launch_for_exec(&request, Platform::Linux);
    assert_eq!(launch.program, "ls");
    assert_eq!(launch.args, vec!["-l".to_string(), "-a".to_string()]);
    assert_eq!(launch.cwd, None);

    let launch = launch_for_exec(&exec("dir /b", None, Some("C:/x")), Platform::Windows);
    assert_eq!(launch.program, "cmd");
    assert_eq!(launch.args, vec!["/C".to_string(), "dir /b".to_string()]);
    assert_eq!(launch.cwd, Some("C:/x".to_string()));

    let launch = launch_for_exec(&exec("ls", None, None), Platform::MacOs);
    assert_eq!(launch.program, "sh");
    assert_eq!(copy_list(&launch.args), vec!["-c".to_string(), "ls".to_string()]);
}

#[test]
fn open_checks_path_then_name_then_directory() {
    let security = security(vec![], vec![], vec!["/etc/"]);
    let open = |application: &str, cwd: Option<&str>| OpenAppRequest {
        application: application.to_string(),
        args: Some(vec!["--flag".to_string()]),
        cwd: cwd.map(String::from),
    };

    let refusal = plan_open(&security, &open("/etc/format", None)).unwrap_err();
    assert_eq!(refusal.kind, Denial::Application);
    assert_eq!(refusal.message, "Access denied to application: /etc/format");

    let refusal = plan_open(&security, &open("/tmp/Format-tool", Some("/etc"))).unwrap_err();
    assert_eq!(refusal.kind, Denial::UnsafeApplication);
    assert_eq!(refusal.message, "Application deemed unsafe: /tmp/Format-tool");

    let refusal = plan_open(&security, &open("/tmp/editor", Some("/etc"))).unwrap_err();
    assert_eq!(refusal.kind, Denial::WorkingDirectory);
    assert_eq!(refusal.message, "Access denied to working directory: /etc");

    let launch = plan_open(&security, &open("/tmp/editor", Some("/tmp"))).unwrap();
    assert_eq!(launch.program, "/tmp/editor");
    assert_eq!(launch.args, vec!["--flag".to_string()]);
    assert_eq!(launch.cwd, Some("/tmp".to_string()));

    let bare = OpenAppRequest { application: "/tmp/editor".to_string(), args: None, cwd: None };
    let launch = plan_open(&security, &bare).unwrap();
    assert!(launch.args.is_empty());
    assert_eq!(launch.cwd, None);
}

#[test]
fn rename_checks_source_before_destination() {
    let security = security(vec![], vec![], vec!["/etc/"]);
    let rename = |from: &str, to: &str| RenameRequest {
        from_path: from.to_string(),
        to_path: to.to_string(),
    };
    let refusal = rename_gate(&security, &rename("/etc/a", "/etc/b")).unwrap();
    assert_eq!(refusal.kind, Denial::Source);
    assert_eq!(refusal.message, "Access denied to source path: /etc/a");
    let refusal = rename_gate(&security, &rename("/tmp/a", "/etc/b")).unwrap();
    assert_eq!(refusal.kind, Denial::Destination);
    assert_eq!(refusal.message, "Access denied to destination path: /etc/b");
    assert!(rename_gate(&security, &rename("/tmp/a", "/tmp/b")).is_none());

    let request = rename("/tmp/a", "/tmp/b");
    assert_eq!(
        rename_obstacle(&request, false, true),
        Some("Source path does not exist: /tmp/a".to_string())
    );
    assert_eq!(
        rename_obstacle(&request, true, true),
        Some("Destination path already exists: /tmp/b".to_string())
    );
    assert_eq!(rename_obstacle(&request, true, false), None);
}

#[test]
fn delete_follows_the_kind_of_item() {
    assert_eq!(delete_action(true, false, None), DeleteAction::RemoveFile);
    assert_eq!(delete_action(true, true, Some(true)), DeleteAction::RemoveFile);
    assert_eq!(delete_action(false, true, None), DeleteAction::RemoveDirectory);
    assert_eq!(delete_action(false, true, Some(false)), DeleteAction::RemoveDirectory);
    assert_eq!(delete_action(false, true, Some(true)), DeleteAction::RemoveTree);
    assert_eq!(delete_action(false, false, Some(true)), DeleteAction::NotFound);
}

#[test]
fn create_writes_sanitized_content() {
    let security = security(vec![], vec![], vec![]);
    let create = |is_directory: bool, content: Option<&str>| CreateRequest {
        path: "/tmp/new".to_string(),
        is_directory,
        content: content.map(String::from),
    };
    match create_action(&security, &create(false, Some("a\r\nb\0")), true) {
        CreateAction::AlreadyExists(message) => {
            assert_eq!(message, "Item already exists: /tmp/new")
        }
        other => panic!("unexpected action {:?}", other),
    }
    assert!(matches!(
        create_action(&security, &create(true, Some("x")), false),
        CreateAction::MakeDirectory
    ));
    match create_action(&security, &create(false, Some("a\r\nb\0")), false) {
        CreateAction::WriteFile(content) => assert_eq!(content, "a\nb"),
        other => panic!("unexpected action {:?}", other),
    }
    match create_action(&security, &create(false, None), false) {
        CreateAction::WriteFile(content) => assert_eq!(content, ""),
        other => panic!("unexpected action {:?}", other),
    }
}

#[test]
fn hidden_entries_are_listed_on_request() {
    assert!(is_listed("visible.txt", None));
    assert!(is_listed("visible.txt", Some(false)));
    assert!(!is_listed(".hidden", None));
    assert!(!is_listed(".hidden", Some(false)));
    assert!(is_listed(".hidden", Some(true)));
    assert!(is_listed("", None));
    assert!(is_listed("a.b", Some(false)));
}

#[test]
fn listing_is_absorbed_and_directories_are_queued() {
    let mut pending = vec!["/start".to_string()];
    let mut items = vec![entry("old", "/old", false)];
    let listed = vec![
        entry("a", "/start/a", true),
        entry("b.txt", "/start/b.txt", false),
        entry("c", "/start/c", true),
    ];
    absorb_listing(listed, &mut pending, &mut items);
    assert_eq!(
        pending,
        vec!["/start".to_string(), "/start/a".to_string(), "/start/c".to_string()]
    );
    let names: Vec<&str> = items.iter().map(|item| item.name.as_str()).collect();
    assert_eq!(names, vec!["old", "a", "b.txt", "c"]);

    absorb_listing(Vec::new(), &mut pending, &mut items);
    assert_eq!(pending.len(), 3);
    assert_eq!(items.len(), 4);
}

#[test]
fn fixed_replies() {
    let notice = shutdown_notice();
    assert!(notice.success);
    assert_eq!(notice.message, "Server shutdown initiated");
    assert_eq!(notice.shutdown_in_seconds, Some(2));
    let report = health_report("1.2.3");
    assert_eq!(report.status, "healthy");
    assert_eq!(report.service, "EXEX");
    assert_eq!(report.version, "1.2.3");
}

#[test]
fn uncovered_critical_paths_are_reported() {
    let mut config = default_config_with(Platform::Linux, "audit.log".to_string());
    assert!(missing_critical_paths(&config, Platform::Linux).is_empty());
    assert_eq!(
        missing_critical_paths(&config, Platform::Windows),
        vec!["C:/Windows/".to_string(), "C:/Program Files/".to_string()]
    );
    assert_eq!(
        missing_critical_paths(&config, Platform::MacOs),
        vec!["/System/".to_string(), "/Library/".to_string()]
    );
    config.security.disallowed_paths = vec!["/mnt/etc/x".to_string(), "/root".to_string()];
    assert_eq!(
        missing_critical_paths(&config, Platform::Linux),
        vec!["/usr/bin/".to_string(), "/root/".to_string()]
    );
}

#[test]
fn gate_follows_the_answer() {
    assert!(gate_from(Denial::File, "/x", true).is_none());
    let refusal = gate_from(Denial::Create, "/x", false).unwrap();
    assert_eq!(refusal.kind, Denial::Create);
    assert_eq!(refusal.message, "Access denied to create: /x");
    let refusal = refuse(Denial::Directory, "/y");
    assert_eq!(refusal.kind, Denial::Directory);
    assert_eq!(refusal.message, "Access denied to directory: /y");
}

#[test]
fn exec_plan_for_each_answer() {
    let with_cwd = exec("echo hi", None, Some("/work"));
    let without_cwd = exec("echo hi", Some(vec!["x"]), None);

    let refusal = exec_plan_from(&with_cwd, Platform::Linux, false, true).unwrap_err();
    assert_eq!(refusal.kind, Denial::Command);
    let refusal = exec_plan_from(&with_cwd, Platform::Linux, false, false).unwrap_err();
    assert_eq!(refusal.kind, Denial::Command);
    let refusal = exec_plan_from(&with_cwd, Platform::Linux, true, false).unwrap_err();
    assert_eq!(refusal.kind, Denial::Directory);
    assert_eq!(refusal.message, "Access denied to directory: /work");
    let launch = exec_plan_from(&with_cwd, Platform::Linux, true, true).unwrap();
    assert_eq!(launch.program, "sh");
    assert_eq!(launch.cwd, Some("/work".to_string()));

    let launch = exec_plan_from(&without_cwd, Platform::Linux, true, false).unwrap();
    assert_eq!(launch.program, "echo hi");
    assert_eq!(launch.args, vec!["x".to_string()]);
    let refusal = exec_plan_from(&without_cwd, Platform::Linux, false, true).unwrap_err();
    assert_eq!(refusal.message, "Command 'echo hi' is not allowed by security policy");
}

#[test]
fn open_plan_for_each_answer() {
    let request = OpenAppRequest {
        application: "/opt/tool".to_string(),
        args: None,
        cwd: Some("/work".to_string()),
    };
    assert_eq!(
        open_plan_from(&request, false, false, false).unwrap_err().kind,
        Denial::Application
    );
    assert_eq!(
        open_plan_from(&request, false, true, true).unwrap_err().kind,
        Denial::Application
    );
    assert_eq!(
        open_plan_from(&request, true, false, true).unwrap_err().kind,
        Denial::UnsafeApplication
    );
    assert_eq!(
        open_plan_from(&request, true, true, false).unwrap_err().kind,
        Denial::WorkingDirectory
    );
    let launch = open_plan_from(&request, true, true, true).unwrap();
    assert_eq!(launch.program, "/opt/tool");
    assert!(launch.args.is_empty());
    assert_eq!(launch.cwd, Some("/work".to_string()));

    let bare = OpenAppRequest { application: "/opt/tool".to_string(), args: None, cwd: None };
    assert!(open_plan_from(&bare, true, true, false).is_ok());
}

#[test]
fn rename_gate_for_each_answer() {
    let request = RenameRequest { from_path: "/a".to_string(), to_path: "/b".to_string() };
    assert_eq!(rename_gate_from(&request, false, false).unwrap().kind, Denial::Source);
    assert_eq!(rename_gate_from(&request, false, true).unwrap().kind, Denial::Source);
    let refusal = rename_gate_from(&request, true, false).unwrap();
    assert_eq!(refusal.kind, Denial::Destination);
    assert_eq!(refusal.message, "Access denied to destination path: /b");
    assert!(rename_gate_from(&request, true, true).is_none());
}
