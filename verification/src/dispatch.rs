//! What the request handlers decide before and after they touch the system.
//!
//! Every handler asks the policy first and refuses a denied request without
//! touching the system. A refusal comes from the policy and is reported as
//! forbidden; a failure comes from the system after the policy has granted
//! access. The functions here take the request and what the system reported
//! as plain values and return what to do or what to say.

use vstd::prelude::*;
use crate::content::sanitized;
use crate::models::{
    CreateRequest, ExecRequest, FileInfo, HealthResponse, OpenAppRequest, RenameRequest,
    ShutdownResponse,
};
use crate::paths::Platform;
use crate::security::{
    command_allowed, denial_is_possible, fragment_free, path_answer, RuleStore, SecurityManager,
};
use crate::text::{chars_of, lowercased, opt_text, texts};

verus! {

/// Status of a reply that carries the outcome of an operation.
pub const STATUS_OK: u16 = 200;

/// Status of a reply that reports a refusal by the policy.
pub const STATUS_FORBIDDEN: u16 = 403;

/// Status of a reply that reports a failure to run a command at all.
pub const STATUS_SERVER_ERROR: u16 = 500;

/// What the policy refused.
#[derive(Clone, Copy, Debug, PartialEq, Eq, Structural)]
pub enum Denial {
    Command,
    File,
    Directory,
    Delete,
    Create,
    Source,
    Destination,
    Application,
    UnsafeApplication,
    WorkingDirectory,
}

/// What the system failed to do.
#[derive(Clone, Copy, Debug, PartialEq, Eq, Structural)]
pub enum Failure {
    ExecIo,
    ExecBlocked,
    ReadFile,
    CreateDirectories,
    WriteFile,
    ScanDirectory,
    Delete,
    CreateParents,
    Create,
    Rename,
    Launch,
}

/// A refusal by the policy, reported with `STATUS_FORBIDDEN`.
#[derive(Debug)]
pub struct Refusal {
    pub kind: Denial,
    pub message: String,
}

/// A process to start.
#[derive(Debug)]
pub struct Launch {
    pub program: String,
    pub args: Vec<String>,
    pub cwd: Option<String>,
}

/// A process to start, as the contracts see it.
pub struct LaunchView {
    pub program: Seq<char>,
    pub args: Seq<Seq<char>>,
    pub cwd: Option<Seq<char>>,
}

impl View for Launch {
    type V = LaunchView;

    open spec fn view(&self) -> LaunchView {
        LaunchView { program: self.program@, args: texts(self.args@), cwd: opt_text(self.cwd) }
    }
}

/// How to delete what a path names.
#[derive(Clone, Copy, Debug, PartialEq, Eq, Structural)]
pub enum DeleteAction {
    RemoveFile,
    RemoveDirectory,
    RemoveTree,
    NotFound,
}

/// How to create what a request names.
#[derive(Debug)]
pub enum CreateAction {
    /// The item exists already; the message says so.
    AlreadyExists(String),
    /// Create the directory and its parents.
    MakeDirectory,
    /// Create the parents, then write this content.
    WriteFile(String),
}

/// The message that reports a refusal of `subject`.
pub open spec fn denial_message(kind: Denial, subject: Seq<char>) -> Seq<char> {
    match kind {
        Denial::Command => "Command '"@ + subject + "' is not allowed by security policy"@,
        Denial::File => "Access denied to file: "@ + subject,
        Denial::Directory => "Access denied to directory: "@ + subject,
        Denial::Delete => "Access denied to delete: "@ + subject,
        Denial::Create => "Access denied to create: "@ + subject,
        Denial::Source => "Access denied to source path: "@ + subject,
        Denial::Destination => "Access denied to destination path: "@ + subject,
        Denial::Application => "Access denied to application: "@ + subject,
        Denial::UnsafeApplication => "Application deemed unsafe: "@ + subject,
        Denial::WorkingDirectory => "Access denied to working directory: "@ + subject,
    }
}

/// The message that reports a failure, with the system's own words appended.
pub open spec fn failure_message(kind: Failure, detail: Seq<char>) -> Seq<char> {
    match kind {
        Failure::ExecIo => "IO error executing command: "@ + detail,
        Failure::ExecBlocked => "Failed to execute command: "@ + detail,
        Failure::ReadFile => "Failed to read file: "@ + detail,
        Failure::CreateDirectories => "Failed to create directories: "@ + detail,
        Failure::WriteFile => "Failed to write file: "@ + detail,
        Failure::ScanDirectory => "Failed to scan directory: "@ + detail,
        Failure::Delete => "Failed to delete: "@ + detail,
        Failure::CreateParents => "Failed to create parent directories: "@ + detail,
        Failure::Create => "Failed to create: "@ + detail,
        Failure::Rename => "Failed to rename/move: "@ + detail,
        Failure::Launch => "Failed to launch application: "@ + detail,
    }
}

/// `prefix` followed by `subject`.
pub fn labelled(prefix: &str, subject: &str) -> (text: String)
    ensures
        text@ == prefix@ + subject@,
{
    let mut text = prefix.to_owned();
    text.append(subject);
    text
}

/// The message that reports a refusal of `subject`.
pub fn denial_text(kind: Denial, subject: &str) -> (text: String)
    ensures
        text@ == denial_message(kind, subject@),
{
    match kind {
        Denial::Command => {
            let mut text = labelled("Command '", subject);
            text.append("' is not allowed by security policy");
            text
        },
        Denial::File => labelled("Access denied to file: ", subject),
        Denial::Directory => labelled("Access denied to directory: ", subject),
        Denial::Delete => labelled("Access denied to delete: ", subject),
        Denial::Create => labelled("Access denied to create: ", subject),
        Denial::Source => labelled("Access denied to source path: ", subject),
        Denial::Destination => labelled("Access denied to destination path: ", subject),
        Denial::Application => labelled("Access denied to application: ", subject),
        Denial::UnsafeApplication => labelled("Application deemed unsafe: ", subject),
        Denial::WorkingDirectory => labelled("Access denied to working directory: ", subject),
    }
}

/// The message that reports a failure, with the system's own words appended.
pub fn failure_text(kind: Failure, detail: &str) -> (text: String)
    ensures
        text@ == failure_message(kind, detail@),
{
    match kind {
        Failure::ExecIo => labelled("IO error executing command: ", detail),
        Failure::ExecBlocked => labelled("Failed to execute command: ", detail),
        Failure::ReadFile => labelled("Failed to read file: ", detail),
        Failure::CreateDirectories => labelled("Failed to create directories: ", detail),
        Failure::WriteFile => labelled("Failed to write file: ", detail),
        Failure::ScanDirectory => labelled("Failed to scan directory: ", detail),
        Failure::Delete => labelled("Failed to delete: ", detail),
        Failure::CreateParents => labelled("Failed to create parent directories: ", detail),
        Failure::Create => labelled("Failed to create: ", detail),
        Failure::Rename => labelled("Failed to rename/move: ", detail),
        Failure::Launch => labelled("Failed to launch application: ", detail),
    }
}

/// The status that a refusal is reported with.
pub fn refusal_status() -> (status: u16)
    ensures
        status == 403,
{
    STATUS_FORBIDDEN
}

/// The status that a failure is reported with: a command that could not be
/// run is a server error; every other failure is an outcome of the operation.
pub fn failure_status(kind: Failure) -> (status: u16)
    ensures
        status == match kind {
            Failure::ExecIo => 500u16,
            Failure::ExecBlocked => 500u16,
            _ => 200u16,
        },
{
    match kind {
        Failure::ExecIo => STATUS_SERVER_ERROR,
        Failure::ExecBlocked => STATUS_SERVER_ERROR,
        _ => STATUS_OK,
    }
}

/// A refusal as the contracts see it.
pub struct RefusalView {
    pub kind: Denial,
    pub message: Seq<char>,
}

impl View for Refusal {
    type V = RefusalView;

    open spec fn view(&self) -> RefusalView {
        RefusalView { kind: self.kind, message: self.message@ }
    }
}

/// The refusal of `subject` for the reason `kind`.
pub open spec fn refusal_of(kind: Denial, subject: Seq<char>) -> RefusalView {
    RefusalView { kind: kind, message: denial_message(kind, subject) }
}

/// The view of an optional refusal.
pub open spec fn gate_view(gate: Option<Refusal>) -> Option<RefusalView> {
    match gate {
        Some(refusal) => Some(refusal@),
        None => None,
    }
}

/// The view of a decision that ends in a process to start or in a refusal.
pub open spec fn plan_view(plan: Result<Launch, Refusal>) -> Result<LaunchView, RefusalView> {
    match plan {
        Ok(launch) => Ok(launch@),
        Err(refusal) => Err(refusal@),
    }
}

/// Builds the refusal of `subject` for the reason `kind`.
pub fn refuse(kind: Denial, subject: &str) -> (refusal: Refusal)
    ensures
        refusal@ == refusal_of(kind, subject@),
{
    Refusal { kind, message: denial_text(kind, subject) }
}

/// A copy of `items`.
pub fn copy_list(items: &Vec<String>) -> (out: Vec<String>)
    ensures
        texts(out@) == texts(items@),
{
    let mut out: Vec<String> = Vec::new();
    let mut i: usize = 0;
    while i < items.len()
        invariant
            0 <= i <= items.len(),
            out.len() == i,
            forall|j: int| 0 <= j < i ==> (#[trigger] out@[j])@ == items@[j]@,
        decreases items.len() - i,
    {
        out.push(items[i].clone());
        i += 1;
    }
    out
}

fn copy_text(item: &Option<String>) -> (out: Option<String>)
    ensures
        opt_text(out) == opt_text(*item),
{
    match item {
        Some(text) => Some(text.clone()),
        None => None,
    }
}

/// What follows from the policy's answer for one path: nothing when the path
/// is allowed, the refusal for `kind` otherwise.
pub open spec fn gate_outcome(kind: Denial, path: Seq<char>, allowed: bool) -> Option<RefusalView> {
    if allowed {
        None
    } else {
        Some(refusal_of(kind, path))
    }
}

/// Turns the policy's answer for `path` into a gate: `None` grants access, a
/// refusal carries the message for `kind`.
pub fn gate_from(kind: Denial, path: &str, allowed: bool) -> (gate: Option<Refusal>)
    ensures
        gate_view(gate) == gate_outcome(kind, path@, allowed),
{
    if allowed {
        None
    } else {
        Some(refuse(kind, path))
    }
}

/// Asks the policy whether `path` may be touched and turns the answer into a
/// gate. The answer is the policy's for the state of the filesystem at the
/// time of the call.
pub fn path_gate(security: &SecurityManager, kind: Denial, path: &str) -> (gate: Option<Refusal>)
    ensures
        path_answer(security@, path@, gate is None),
        gate_view(gate) == gate_outcome(kind, path@, gate is None),
{
    gate_from(kind, path, security.is_path_allowed(path))
}

/// The process that runs the command of a request: the command with its
/// arguments where they are given apart, the platform's shell on the whole
/// command line otherwise.
pub open spec fn exec_launch(req: ExecRequest, platform: Platform) -> LaunchView {
    match req.args {
        Some(args) => LaunchView {
            program: req.command@,
            args: texts(args@),
            cwd: opt_text(req.cwd),
        },
        None => match platform {
            Platform::Windows => LaunchView {
                program: "cmd"@,
                args: seq!["/C"@, req.command@],
                cwd: opt_text(req.cwd),
            },
            _ => LaunchView {
                program: "sh"@,
                args: seq!["-c"@, req.command@],
                cwd: opt_text(req.cwd),
            },
        },
    }
}

/// Builds the process that runs the command of a request.
pub fn launch_for_exec(req: &ExecRequest, platform: Platform) -> (launch: Launch)
    ensures
        launch@ == exec_launch(*req, platform),
{
    let cwd = copy_text(&req.cwd);
    match &req.args {
        Some(args) => Launch { program: req.command.clone(), args: copy_list(args), cwd },
        None => {
            let (shell, flag) = match platform {
                Platform::Windows => ("cmd", "/C"),
                _ => ("sh", "-c"),
            };
            let mut args: Vec<String> = Vec::new();
            args.push(flag.to_owned());
            args.push(req.command.clone());
            let launch = Launch { program: shell.to_owned(), args, cwd };
            assert(launch@.args =~= seq![flag@, req.command@]);
            launch
        },
    }
}

/// True when `ok` is a possible answer of the policy for an optional working
/// directory; every answer is possible where none is given.
pub open spec fn cwd_answer(rules: RuleStore, cwd: Option<String>, ok: bool) -> bool {
    match cwd {
        Some(dir) => path_answer(rules, dir@, ok),
        None => true,
    }
}

/// What a request to execute a command comes to, given the policy's answers:
/// the command must pass the whitelist and the blacklist; then the working
/// directory, if one is given, must be allowed. The first check that fails
/// gives the refusal.
pub open spec fn exec_outcome(
    req: ExecRequest,
    platform: Platform,
    command_ok: bool,
    cwd_ok: bool,
) -> Result<LaunchView, RefusalView> {
    if !command_ok {
        Err(refusal_of(Denial::Command, req.command@))
    } else if req.cwd is Some && !cwd_ok {
        Err(refusal_of(Denial::Directory, req.cwd->0@))
    } else {
        Ok(exec_launch(req, platform))
    }
}

/// Decides on a request to execute a command from the policy's answers:
/// `command_ok` for the command, `cwd_ok` for the working directory.
pub fn exec_plan_from(req: &ExecRequest, platform: Platform, command_ok: bool, cwd_ok: bool) -> (plan:
    Result<Launch, Refusal>)
    ensures
        plan_view(plan) == exec_outcome(*req, platform, command_ok, cwd_ok),
{
    if !command_ok {
        return Err(refuse(Denial::Command, req.command.as_str()));
    }
    match &req.cwd {
        Some(cwd) => {
            if !cwd_ok {
                return Err(refuse(Denial::Directory, cwd.as_str()));
            }
        },
        None => {},
    }
    Ok(launch_for_exec(req, platform))
}

/// Decides on a request to execute a command. The policy is asked about the
/// command, and about the working directory only when the command passed;
/// whatever it answers for the directory, the plan is `exec_outcome` of the
/// answers.
pub fn plan_exec(security: &SecurityManager, req: &ExecRequest, platform: Platform) -> (plan:
    Result<Launch, Refusal>)
    ensures
        exists|cwd_ok: bool| #[trigger]
            cwd_answer(security@, req.cwd, cwd_ok) && plan_view(plan) == exec_outcome(
                *req,
                platform,
                command_allowed(security@, req.command@),
                cwd_ok,
            ),
{
    let command_ok = security.is_command_allowed(req.command.as_str());
    let cwd_ok = match &req.cwd {
        Some(cwd) => command_ok && security.is_path_allowed(cwd.as_str()),
        None => true,
    };
    proof {
        if req.cwd is Some {
            denial_is_possible(security@, req.cwd->0@);
        }
    }
    let plan = exec_plan_from(req, platform, command_ok, cwd_ok);
    assert(cwd_answer(security@, req.cwd, cwd_ok) && plan_view(plan) == exec_outcome(
        *req,
        platform,
        command_allowed(security@, req.command@),
        cwd_ok,
    ));
    plan
}

/// The process that a request to open an application starts.
pub open spec fn open_launch(req: OpenAppRequest) -> LaunchView {
    LaunchView {
        program: req.application@,
        args: match req.args {
            Some(args) => texts(args@),
            None => Seq::<Seq<char>>::empty(),
        },
        cwd: opt_text(req.cwd),
    }
}

/// What a request to open an application comes to, given the policy's
/// answers: the application's path must be allowed, its name must hold no
/// destructive fragment, and the working directory, if one is given, must be
/// allowed. The first check that fails gives the refusal.
pub open spec fn open_outcome(req: OpenAppRequest, path_ok: bool, safe: bool, cwd_ok: bool) -> Result<
    LaunchView,
    RefusalView,
> {
    if !path_ok {
        Err(refusal_of(Denial::Application, req.application@))
    } else if !safe {
        Err(refusal_of(Denial::UnsafeApplication, req.application@))
    } else if req.cwd is Some && !cwd_ok {
        Err(refusal_of(Denial::WorkingDirectory, req.cwd->0@))
    } else {
        Ok(open_launch(req))
    }
}

/// Decides on a request to open an application from the policy's answers:
/// `path_ok` for the application's path, `safe` for its name, `cwd_ok` for
/// the working directory.
pub fn open_plan_from(req: &OpenAppRequest, path_ok: bool, safe: bool, cwd_ok: bool) -> (plan:
    Result<Launch, Refusal>)
    ensures
        plan_view(plan) == open_outcome(*req, path_ok, safe, cwd_ok),
{
    if !path_ok {
        return Err(refuse(Denial::Application, req.application.as_str()));
    }
    if !safe {
        return Err(refuse(Denial::UnsafeApplication, req.application.as_str()));
    }
    match &req.cwd {
        Some(cwd) => {
            if !cwd_ok {
                return Err(refuse(Denial::WorkingDirectory, cwd.as_str()));
            }
        },
        None => {},
    }
    let args = match &req.args {
        Some(args) => copy_list(args),
        None => {
            let none: Vec<String> = Vec::new();
            assert(texts(none@) =~= Seq::<Seq<char>>::empty());
            none
        },
    };
    Ok(Launch { program: req.application.clone(), args, cwd: copy_text(&req.cwd) })
}

/// Decides on a request to open an application. The policy is asked in
/// order and only as far as needed; whatever it answers for the two paths,
/// the plan is `open_outcome` of the answers.
pub fn plan_open(security: &SecurityManager, req: &OpenAppRequest) -> (plan: Result<
    Launch,
    Refusal,
>)
    ensures
        exists|path_ok: bool, cwd_ok: bool|
            path_answer(security@, req.application@, path_ok) && cwd_answer(
                security@,
                req.cwd,
                cwd_ok,
            ) && plan_view(plan) == open_outcome(
                *req,
                path_ok,
                fragment_free(lowercased(req.application@)),
                cwd_ok,
            ),
{
    let path_ok = security.is_path_allowed(req.application.as_str());
    let safe = path_ok && security.is_command_safe(req.application.as_str());
    let cwd_ok = match &req.cwd {
        Some(cwd) => safe && security.is_path_allowed(cwd.as_str()),
        None => true,
    };
    proof {
        if req.cwd is Some {
            denial_is_possible(security@, req.cwd->0@);
        }
    }
    let plan = open_plan_from(req, path_ok, safe, cwd_ok);
    assert(path_answer(security@, req.application@, path_ok) && cwd_answer(
        security@,
        req.cwd,
        cwd_ok,
    ) && plan_view(plan) == open_outcome(
        *req,
        path_ok,
        fragment_free(lowercased(req.application@)),
        cwd_ok,
    ));
    plan
}

/// What follows from the policy's answers for a rename: the source must be
/// allowed, then the destination.
pub open spec fn rename_gate_outcome(req: RenameRequest, from_ok: bool, to_ok: bool) -> Option<
    RefusalView,
> {
    if !from_ok {
        Some(refusal_of(Denial::Source, req.from_path@))
    } else if !to_ok {
        Some(refusal_of(Denial::Destination, req.to_path@))
    } else {
        None
    }
}

/// Decides on a request to rename from the policy's answers for the source
/// and for the destination. `None` grants access.
pub fn rename_gate_from(req: &RenameRequest, from_ok: bool, to_ok: bool) -> (gate: Option<Refusal>)
    ensures
        gate_view(gate) == rename_gate_outcome(*req, from_ok, to_ok),
{
    if !from_ok {
        Some(refuse(Denial::Source, req.from_path.as_str()))
    } else if !to_ok {
        Some(refuse(Denial::Destination, req.to_path.as_str()))
    } else {
        None
    }
}

/// Decides on a request to rename. The policy is asked about the source,
/// and about the destination only when the source passed; whatever it
/// answers, the result is `rename_gate_outcome` of the answers.
pub fn rename_gate(security: &SecurityManager, req: &RenameRequest) -> (gate: Option<Refusal>)
    ensures
        exists|from_ok: bool, to_ok: bool|
            path_answer(security@, req.from_path@, from_ok) && path_answer(
                security@,
                req.to_path@,
                to_ok,
            ) && gate_view(gate) == rename_gate_outcome(*req, from_ok, to_ok),
{
    let from_ok = security.is_path_allowed(req.from_path.as_str());
    let to_ok = from_ok && security.is_path_allowed(req.to_path.as_str());
    proof {
        denial_is_possible(security@, req.to_path@);
    }
    let gate = rename_gate_from(req, from_ok, to_ok);
    gate
}

/// What stands in the way of a rename that the policy has granted, given
/// whether source and destination exist.
pub open spec fn rename_obstacle_message(
    req: RenameRequest,
    source_exists: bool,
    destination_exists: bool,
) -> Option<Seq<char>> {
    if !source_exists {
        Some("Source path does not exist: "@ + req.from_path@)
    } else if destination_exists {
        Some("Destination path already exists: "@ + req.to_path@)
    } else {
        None
    }
}

/// What stands in the way of a rename that the policy has granted: a missing
/// source first, an existing destination second; `None` when nothing does.
pub fn rename_obstacle(req: &RenameRequest, source_exists: bool, destination_exists: bool) -> (
    obstacle: Option<String>)
    ensures
        opt_text(obstacle) == rename_obstacle_message(*req, source_exists, destination_exists),
{
    if !source_exists {
        Some(labelled("Source path does not exist: ", req.from_path.as_str()))
    } else if destination_exists {
        Some(labelled("Destination path already exists: ", req.to_path.as_str()))
    } else {
        None
    }
}

/// How to delete what a path names, given what kind of thing it is. A
/// directory is removed with its content only on request.
pub fn delete_action(is_file: bool, is_dir: bool, recursive: Option<bool>) -> (action:
    DeleteAction)
    ensures
        action == if is_file {
            DeleteAction::RemoveFile
        } else if is_dir {
            if recursive == Some(true) {
                DeleteAction::RemoveTree
            } else {
                DeleteAction::RemoveDirectory
            }
        } else {
            DeleteAction::NotFound
        },
{
    if is_file {
        DeleteAction::RemoveFile
    } else if is_dir {
        match recursive {
            Some(true) => DeleteAction::RemoveTree,
            _ => DeleteAction::RemoveDirectory,
        }
    } else {
        DeleteAction::NotFound
    }
}

/// The content that a request to create a file writes: the given content,
/// sanitized; nothing when none is given.
pub open spec fn created_content(req: CreateRequest) -> Seq<char> {
    match req.content {
        Some(content) => sanitized(content@),
        None => sanitized(Seq::<char>::empty()),
    }
}

/// How to create what a request names, given whether it exists already.
pub fn create_action(security: &SecurityManager, req: &CreateRequest, exists: bool) -> (action:
    CreateAction)
    ensures
        match action {
            CreateAction::AlreadyExists(message) => exists && message@
                == "Item already exists: "@ + req.path@,
            CreateAction::MakeDirectory => !exists && req.is_directory,
            CreateAction::WriteFile(content) => !exists && !req.is_directory && content@
                == created_content(*req),
        },
{
    if exists {
        CreateAction::AlreadyExists(labelled("Item already exists: ", req.path.as_str()))
    } else if req.is_directory {
        CreateAction::MakeDirectory
    } else {
        match &req.content {
            Some(content) => CreateAction::WriteFile(security.sanitize_content(content.as_str())),
            None => {
                let empty = String::new();
                CreateAction::WriteFile(security.sanitize_content(empty.as_str()))
            },
        }
    }
}

/// Whether a directory entry is listed: a name that starts with a dot is
/// listed only on request.
pub fn is_listed(name: &str, include_hidden: Option<bool>) -> (listed: bool)
    ensures
        listed == (include_hidden == Some(true) || !(name@.len() > 0 && name@[0] == '.')),
{
    match include_hidden {
        Some(true) => true,
        _ => {
            let chars = chars_of(name);
            !(chars.len() > 0 && chars[0] == '.')
        },
    }
}

/// The paths of the directories among `entries`, in order.
pub open spec fn directory_paths(entries: Seq<FileInfo>) -> Seq<Seq<char>>
    decreases entries.len(),
{
    if entries.len() == 0 {
        Seq::<Seq<char>>::empty()
    } else if entries.last().is_directory {
        directory_paths(entries.drop_last()).push(entries.last().path@)
    } else {
        directory_paths(entries.drop_last())
    }
}

/// One step of a recursive scan: takes the entries listed for one directory
/// into the result and queues the directories among them for a later visit.
pub fn absorb_listing(listed: Vec<FileInfo>, pending: &mut Vec<String>, items: &mut Vec<FileInfo>)
    ensures
        final(items)@ == old(items)@ + listed@,
        texts(final(pending)@) == texts(old(pending)@) + directory_paths(listed@),
{
    let ghost entries = listed@;
    let ghost pending_before = texts(pending@);
    let mut listed = listed;
    let mut i: usize = 0;
    while i < listed.len()
        invariant
            0 <= i <= listed.len(),
            listed@ == entries,
            texts(pending@) == pending_before + directory_paths(entries.take(i as int)),
        decreases listed.len() - i,
    {
        assert(entries.take(i + 1).drop_last() =~= entries.take(i as int));
        let ghost pending_seen = texts(pending@);
        if listed[i].is_directory {
            pending.push(listed[i].path.clone());
            assert(texts(pending@) =~= pending_seen.push(entries[i as int].path@));
        }
        i += 1;
    }
    assert(entries.take(listed.len() as int) =~= entries);
    items.append(&mut listed);
}

/// The reply to a shutdown request: the server goes down in two seconds.
pub fn shutdown_notice() -> (notice: ShutdownResponse)
    ensures
        notice.success,
        notice.message@ == "Server shutdown initiated"@,
        notice.shutdown_in_seconds == Some(2u32),
{
    ShutdownResponse {
        success: true,
        message: "Server shutdown initiated".to_owned(),
        shutdown_in_seconds: Some(2),
    }
}

/// The reply to a health check.
pub fn health_report(version: &str) -> (report: HealthResponse)
    ensures
        report.status@ == "healthy"@,
        report.service@ == "EXEX"@,
        report.version@ == version@,
{
    HealthResponse {
        status: "healthy".to_owned(),
        service: "EXEX".to_owned(),
        version: version.to_owned(),
    }
}

} // verus!
