//! Plain data carried between the configuration, the policy engine and the
//! request dispatchers.

use vstd::prelude::*;

verus! {

/// Configuration of the daemon.
#[derive(Debug, Clone)]
pub struct Config {
    pub version: String,
    pub server: ServerConfig,
    pub security: SecurityConfig,
    pub logging: LoggingConfig,
}

/// Address the server binds to.
#[derive(Debug, Clone)]
pub struct ServerConfig {
    pub host: String,
    pub port: u16,
}

/// The policy surface: path patterns, command lists and the size limit.
#[derive(Debug, Clone)]
pub struct SecurityConfig {
    pub allowed_paths: Vec<String>,
    pub disallowed_paths: Vec<String>,
    pub command_whitelist: Vec<String>,
    pub command_blacklist: Option<Vec<String>>,
    pub max_file_size_mb: u64,
}

/// Logging configuration.
#[derive(Debug, Clone)]
pub struct LoggingConfig {
    pub level: String,
    pub audit_file: String,
}

/// Older configuration layout, kept for backward compatibility.
#[derive(Debug, Clone)]
pub struct LegacyConfig {
    pub version: String,
    pub exex_project: Option<String>,
    pub created: Option<String>,
    pub disallowed_paths: Vec<String>,
    pub allowed_paths: Vec<String>,
}

/// Request to execute a command.
#[derive(Debug, Clone)]
pub struct ExecRequest {
    pub command: String,
    pub args: Option<Vec<String>>,
    pub cwd: Option<String>,
}

/// Request to read a file.
#[derive(Debug, Clone)]
pub struct ReadRequest {
    pub path: String,
}

/// Request to write a file.
#[derive(Debug, Clone)]
pub struct WriteRequest {
    pub path: String,
    pub content: String,
}

/// Outcome of a command execution.
#[derive(Debug, Clone)]
pub struct ExecResponse {
    pub success: bool,
    pub stdout: String,
    pub stderr: String,
    pub exit_code: Option<i32>,
}

/// Outcome of a file read.
#[derive(Debug, Clone)]
pub struct ReadResponse {
    pub success: bool,
    pub content: Option<String>,
    pub error: Option<String>,
}

/// Outcome of a file write.
#[derive(Debug, Clone)]
pub struct WriteResponse {
    pub success: bool,
    pub error: Option<String>,
}

/// Generic error payload.
#[derive(Debug, Clone)]
pub struct ErrorResponse {
    pub error: String,
}

/// Health check payload.
#[derive(Debug, Clone)]
pub struct HealthResponse {
    pub status: String,
    pub service: String,
    pub version: String,
}

/// Request to launch an application.
#[derive(Debug, Clone)]
pub struct OpenAppRequest {
    pub application: String,
    pub args: Option<Vec<String>>,
    pub cwd: Option<String>,
}

/// Request to list a directory.
#[derive(Debug, Clone)]
pub struct ScanRequest {
    pub path: String,
    pub recursive: Option<bool>,
    pub include_hidden: Option<bool>,
}

/// Request to delete a file or directory.
#[derive(Debug, Clone)]
pub struct DeleteRequest {
    pub path: String,
    pub recursive: Option<bool>,
}

/// Request to create a file or directory.
#[derive(Debug, Clone)]
pub struct CreateRequest {
    pub path: String,
    pub is_directory: bool,
    pub content: Option<String>,
}

/// Request to rename or move a file or directory.
#[derive(Debug, Clone)]
pub struct RenameRequest {
    pub from_path: String,
    pub to_path: String,
}

/// One entry of a directory listing.
#[derive(Debug, Clone)]
pub struct FileInfo {
    pub name: String,
    pub path: String,
    pub is_directory: bool,
    pub size: Option<u64>,
    pub modified: Option<String>,
    pub created: Option<String>,
    pub permissions: Option<String>,
}

/// Outcome of an application launch.
#[derive(Debug, Clone)]
pub struct OpenAppResponse {
    pub success: bool,
    pub pid: Option<u32>,
    pub error: Option<String>,
}

/// Outcome of a directory listing.
#[derive(Debug, Clone)]
pub struct ScanResponse {
    pub success: bool,
    pub items: Option<Vec<FileInfo>>,
    pub total_count: Option<usize>,
    pub error: Option<String>,
}

/// Outcome of a delete operation.
#[derive(Debug, Clone)]
pub struct DeleteResponse {
    pub success: bool,
    pub deleted_count: Option<usize>,
    pub error: Option<String>,
}

/// Outcome of a create operation.
#[derive(Debug, Clone)]
pub struct CreateResponse {
    pub success: bool,
    pub created_path: Option<String>,
    pub error: Option<String>,
}

/// Outcome of a rename operation.
#[derive(Debug, Clone)]
pub struct RenameResponse {
    pub success: bool,
    pub old_path: Option<String>,
    pub new_path: Option<String>,
    pub error: Option<String>,
}

/// Outcome of a shutdown request.
#[derive(Debug, Clone)]
pub struct ShutdownResponse {
    pub success: bool,
    pub message: String,
    pub shutdown_in_seconds: Option<u32>,
}

} // verus!
