//! The configuration: its defaults for each platform, where its file lives,
//! and the validation that a loaded configuration must pass.

use vstd::prelude::*;
use crate::models::{Config, LoggingConfig, SecurityConfig, ServerConfig};
use crate::paths::{joined, path_join, Platform};
use crate::text::{
    blank, chars_of, contains_fragment, has_fragment, is_blank, is_white_space, opt_text, texts,
};

verus! {

/// Calls `dirs::data_local_dir`, which reads the user's environment. Nothing
/// is claimed of the outcome. A directory that is not valid Unicode cannot
/// be held as text unaltered and counts as missing.
#[verifier::external_body]
pub(crate) fn local_data_dir() -> (dir: Option<String>) {
    match dirs::data_local_dir() {
        Some(found) => match found.to_str() {
            Some(text) => Some(text.to_owned()),
            None => None,
        },
        None => None,
    }
}

/// Calls `dirs::home_dir`, which reads the user's environment. Nothing is
/// claimed of the outcome. A directory that is not valid Unicode cannot be
/// held as text unaltered and counts as missing.
#[verifier::external_body]
pub(crate) fn home_dir() -> (dir: Option<String>) {
    match dirs::home_dir() {
        Some(found) => match found.to_str() {
            Some(text) => Some(text.to_owned()),
            None => None,
        },
        None => None,
    }
}

/// Calls `dirs::config_dir`, which reads the user's environment. Nothing is
/// claimed of the outcome. A directory that is not valid Unicode cannot be
/// held as text unaltered and counts as missing.
#[verifier::external_body]
pub(crate) fn user_config_dir() -> (dir: Option<String>) {
    match dirs::config_dir() {
        Some(found) => match found.to_str() {
            Some(text) => Some(text.to_owned()),
            None => None,
        },
        None => None,
    }
}

/// What is wrong with a configuration.
#[derive(Clone, Copy, Debug, PartialEq, Eq, Structural)]
pub enum ConfigFault {
    MissingVersion,
    EmptyHost,
    ZeroPort,
    ZeroFileSize,
    NoDisallowedPaths,
    BlankDisallowedPath,
    BlankAllowedPath,
    BlankWhitelistEntry,
    BlankBlacklistEntry,
}

/// True when one of `items` is blank.
pub open spec fn has_blank(items: Seq<Seq<char>>) -> bool {
    exists|i: int| 0 <= i < items.len() && blank(#[trigger] items[i])
}

/// The command blacklist of a configuration; empty when none is given.
pub open spec fn blacklist_of(config: Config) -> Seq<Seq<char>> {
    match config.security.command_blacklist {
        Some(list) => texts(list@),
        None => Seq::<Seq<char>>::empty(),
    }
}

/// The first fault of a configuration in the order in which its fields are
/// examined, or `None` for a valid configuration.
pub open spec fn first_fault(config: Config) -> Option<ConfigFault> {
    if blank(config.version@) {
        Some(ConfigFault::MissingVersion)
    } else if blank(config.server.host@) {
        Some(ConfigFault::EmptyHost)
    } else if config.server.port == 0 {
        Some(ConfigFault::ZeroPort)
    } else if config.security.max_file_size_mb == 0 {
        Some(ConfigFault::ZeroFileSize)
    } else if config.security.disallowed_paths@.len() == 0 {
        Some(ConfigFault::NoDisallowedPaths)
    } else if has_blank(texts(config.security.disallowed_paths@)) {
        Some(ConfigFault::BlankDisallowedPath)
    } else if has_blank(texts(config.security.allowed_paths@)) {
        Some(ConfigFault::BlankAllowedPath)
    } else if has_blank(texts(config.security.command_whitelist@)) {
        Some(ConfigFault::BlankWhitelistEntry)
    } else if has_blank(blacklist_of(config)) {
        Some(ConfigFault::BlankBlacklistEntry)
    } else {
        None
    }
}

/// The message that reports a fault.
pub open spec fn fault_message(fault: ConfigFault) -> Seq<char> {
    match fault {
        ConfigFault::MissingVersion => "Configuration must have a version field"@,
        ConfigFault::EmptyHost => "Server host cannot be empty"@,
        ConfigFault::ZeroPort => "Server port must be greater than 0"@,
        ConfigFault::ZeroFileSize => "Max file size must be greater than 0"@,
        ConfigFault::NoDisallowedPaths => "At least one disallowed path is required"@,
        ConfigFault::BlankDisallowedPath => "Disallowed paths cannot be empty"@,
        ConfigFault::BlankAllowedPath => "Allowed paths cannot be empty"@,
        ConfigFault::BlankWhitelistEntry => "Command whitelist entries cannot be empty"@,
        ConfigFault::BlankBlacklistEntry => "Command blacklist entries cannot be empty"@,
    }
}

impl ConfigFault {
    /// The message that reports this fault.
    pub fn message(&self) -> (text: String)
        ensures
            text@ == fault_message(*self),
    {
        match self {
            ConfigFault::MissingVersion => "Configuration must have a version field".to_owned(),
            ConfigFault::EmptyHost => "Server host cannot be empty".to_owned(),
            ConfigFault::ZeroPort => "Server port must be greater than 0".to_owned(),
            ConfigFault::ZeroFileSize => "Max file size must be greater than 0".to_owned(),
            ConfigFault::NoDisallowedPaths => "At least one disallowed path is required".to_owned(),
            ConfigFault::BlankDisallowedPath => "Disallowed paths cannot be empty".to_owned(),
            ConfigFault::BlankAllowedPath => "Allowed paths cannot be empty".to_owned(),
            ConfigFault::BlankWhitelistEntry => "Command whitelist entries cannot be empty".to_owned(),
            ConfigFault::BlankBlacklistEntry => "Command blacklist entries cannot be empty".to_owned(),
        }
    }
}

/// Whether one of `items` is blank.
fn any_blank(items: &Vec<String>) -> (found: bool)
    ensures
        found == has_blank(texts(items@)),
{
    let mut i: usize = 0;
    while i < items.len()
        invariant
            0 <= i <= items.len(),
            forall|j: int| 0 <= j < i ==> !blank(#[trigger] texts(items@)[j]),
        decreases items.len() - i,
    {
        if is_blank(items[i].as_str()) {
            assert(blank(texts(items@)[i as int]));
            return true;
        }
        i += 1;
    }
    false
}

/// Examines a configuration and reports its first fault, if it has one.
pub fn check_config(config: &Config) -> (fault: Option<ConfigFault>)
    ensures
        fault == first_fault(*config),
{
    if is_blank(config.version.as_str()) {
        return Some(ConfigFault::MissingVersion);
    }
    if is_blank(config.server.host.as_str()) {
        return Some(ConfigFault::EmptyHost);
    }
    if config.server.port == 0 {
        return Some(ConfigFault::ZeroPort);
    }
    if config.security.max_file_size_mb == 0 {
        return Some(ConfigFault::ZeroFileSize);
    }
    if config.security.disallowed_paths.len() == 0 {
        return Some(ConfigFault::NoDisallowedPaths);
    }
    if any_blank(&config.security.disallowed_paths) {
        return Some(ConfigFault::BlankDisallowedPath);
    }
    if any_blank(&config.security.allowed_paths) {
        return Some(ConfigFault::BlankAllowedPath);
    }
    if any_blank(&config.security.command_whitelist) {
        return Some(ConfigFault::BlankWhitelistEntry);
    }
    match &config.security.command_blacklist {
        Some(list) => {
            if any_blank(list) {
                return Some(ConfigFault::BlankBlacklistEntry);
            }
        },
        None => {
            assert(!has_blank(Seq::<Seq<char>>::empty()));
        },
    }
    None
}

/// Validates a configuration: `Ok` exactly when it has no fault, otherwise
/// the message of its first fault.
pub fn validate_config(config: &Config) -> (outcome: Result<(), String>)
    ensures
        outcome is Ok <==> first_fault(*config) is None,
        outcome is Err ==> outcome->Err_0@ == fault_message(first_fault(*config).unwrap()),
{
    match check_config(config) {
        Some(fault) => Err(fault.message()),
        None => Ok(()),
    }
}

/// The paths that a deny list is expected to cover on `platform`.
pub open spec fn critical_paths(platform: Platform) -> Seq<Seq<char>> {
    match platform {
        Platform::Windows => seq!["C:/Windows/"@, "C:/Program Files/"@],
        Platform::MacOs => seq!["/System/"@, "/Library/"@],
        Platform::Linux => seq!["/etc/"@, "/usr/bin/"@, "/root/"@],
    }
}

/// True when one of `patterns` holds `fragment`.
pub open spec fn covered_by(patterns: Seq<Seq<char>>, fragment: Seq<char>) -> bool {
    exists|i: int| 0 <= i < patterns.len() && has_fragment(#[trigger] patterns[i], fragment)
}

/// Those of `wanted` that none of `patterns` holds, in order.
pub open spec fn uncovered(patterns: Seq<Seq<char>>, wanted: Seq<Seq<char>>) -> Seq<Seq<char>>
    decreases wanted.len(),
{
    if wanted.len() == 0 {
        Seq::<Seq<char>>::empty()
    } else if covered_by(patterns, wanted.last()) {
        uncovered(patterns, wanted.drop_last())
    } else {
        uncovered(patterns, wanted.drop_last()).push(wanted.last())
    }
}

/// Whether one of `patterns` holds `fragment`.
fn is_covered(patterns: &Vec<String>, fragment: &str) -> (found: bool)
    ensures
        found == covered_by(texts(patterns@), fragment@),
{
    let needle = chars_of(fragment);
    let mut i: usize = 0;
    while i < patterns.len()
        invariant
            0 <= i <= patterns.len(),
            needle@ == fragment@,
            forall|j: int| 0 <= j < i ==> !has_fragment(#[trigger] texts(patterns@)[j], fragment@),
        decreases patterns.len() - i,
    {
        let hay = chars_of(patterns[i].as_str());
        if contains_fragment(&hay, &needle) {
            assert(has_fragment(texts(patterns@)[i as int], fragment@));
            return true;
        }
        i += 1;
    }
    false
}

/// The critical paths of `platform` that no disallowed path of the
/// configuration holds. They are worth a warning; the configuration is valid
/// without them.
pub fn missing_critical_paths(config: &Config, platform: Platform) -> (missing: Vec<String>)
    ensures
        texts(missing@) == uncovered(
            texts(config.security.disallowed_paths@),
            critical_paths(platform),
        ),
{
    let wanted = match platform {
        Platform::Windows => vec!["C:/Windows/", "C:/Program Files/"],
        Platform::MacOs => vec!["/System/", "/Library/"],
        Platform::Linux => vec!["/etc/", "/usr/bin/", "/root/"],
    };
    let ghost all = critical_paths(platform);
    let mut missing: Vec<String> = Vec::new();
    let mut i: usize = 0;
    while i < wanted.len()
        invariant
            0 <= i <= wanted.len(),
            wanted@.map_values(|s: &'static str| s@) == all,
            texts(missing@) == uncovered(
                texts(config.security.disallowed_paths@),
                all.take(i as int),
            ),
        decreases wanted.len() - i,
    {
        assert(all.take(i + 1).drop_last() =~= all.take(i as int));
        if !is_covered(&config.security.disallowed_paths, wanted[i]) {
            missing.push(wanted[i].to_owned());
        }
        i += 1;
    }
    assert(all.take(wanted.len() as int) =~= all);
    missing
}

/// The directory under the platform's base directory that holds the daemon's
/// files.
pub open spec fn config_subdir(platform: Platform) -> Seq<char> {
    match platform {
        Platform::Windows => "EXEX"@,
        Platform::MacOs => "Library/Application Support/EXEX"@,
        Platform::Linux => "exex"@,
    }
}

/// The message that reports a missing base directory.
pub open spec fn missing_dir_message(platform: Platform) -> Seq<char> {
    match platform {
        Platform::Windows => "Could not determine local data directory"@,
        Platform::MacOs => "Could not determine home directory"@,
        Platform::Linux => "Could not determine config directory"@,
    }
}

/// The configuration directory for a base directory, or the error for a
/// missing one.
pub open spec fn config_dir_for(platform: Platform, base: Option<Seq<char>>) -> Result<
    Seq<char>,
    Seq<char>,
> {
    match base {
        Some(dir) => Ok(joined(dir, config_subdir(platform))),
        None => Err(missing_dir_message(platform)),
    }
}

/// The configuration file for a base directory, or the error for a missing
/// one.
pub open spec fn config_file_for(platform: Platform, base: Option<Seq<char>>) -> Result<
    Seq<char>,
    Seq<char>,
> {
    match config_dir_for(platform, base) {
        Ok(dir) => Ok(joined(dir, "exex.config.json"@)),
        Err(message) => Err(message),
    }
}

/// The audit file for a base directory; a bare file name when the base
/// directory is missing.
pub open spec fn audit_file_for(platform: Platform, base: Option<Seq<char>>) -> Seq<char> {
    match config_dir_for(platform, base) {
        Ok(dir) => joined(dir, "audit.log"@),
        Err(_) => "audit.log"@,
    }
}

/// The view of a result that holds text on both sides.
pub open spec fn result_text(outcome: Result<String, String>) -> Result<Seq<char>, Seq<char>> {
    match outcome {
        Ok(text) => Ok(text@),
        Err(message) => Err(message@),
    }
}

/// The configuration directory below `base`, the platform's base directory as
/// the environment gave it.
pub fn config_dir_from(platform: Platform, base: Option<String>) -> (dir: Result<String, String>)
    ensures
        result_text(dir) == config_dir_for(platform, opt_text(base)),
{
    match base {
        Some(dir) => {
            let sub = match platform {
                Platform::Windows => "EXEX",
                Platform::MacOs => "Library/Application Support/EXEX",
                Platform::Linux => "exex",
            };
            Ok(path_join(dir.as_str(), sub))
        },
        None => Err(
            match platform {
                Platform::Windows => "Could not determine local data directory".to_owned(),
                Platform::MacOs => "Could not determine home directory".to_owned(),
                Platform::Linux => "Could not determine config directory".to_owned(),
            },
        ),
    }
}

/// Asks the environment for the platform's base directory.
fn base_dir(platform: Platform) -> (dir: Option<String>) {
    match platform {
        Platform::Windows => local_data_dir(),
        Platform::MacOs => home_dir(),
        Platform::Linux => user_config_dir(),
    }
}

/// The configuration file below `base`, the platform's base directory as the
/// environment gave it.
pub fn config_file_from(platform: Platform, base: Option<String>) -> (file: Result<String, String>)
    ensures
        result_text(file) == config_file_for(platform, opt_text(base)),
{
    match config_dir_from(platform, base) {
        Ok(dir) => Ok(path_join(dir.as_str(), "exex.config.json")),
        Err(message) => Err(message),
    }
}

/// The directory that holds the daemon's files. Whatever base directory the
/// environment gives, the result is `config_dir_for` of it.
pub fn get_config_dir(platform: Platform) -> (dir: Result<String, String>)
    ensures
        exists|base: Option<Seq<char>>| result_text(dir) == config_dir_for(platform, base),
{
    config_dir_from(platform, base_dir(platform))
}

/// The configuration file. Whatever base directory the environment gives,
/// the result is `config_file_for` of it.
pub fn get_config_file_path(platform: Platform) -> (file: Result<String, String>)
    ensures
        exists|base: Option<Seq<char>>| result_text(file) == config_file_for(platform, base),
{
    config_file_from(platform, base_dir(platform))
}

/// The paths that are denied by default.
pub open spec fn default_disallowed_paths(platform: Platform) -> Seq<Seq<char>> {
    match platform {
        Platform::Windows => seq![
            "C:/Windows/"@,
            "C:/Program Files/"@,
            "C:/Program Files (x86)/"@,
            "C:/Windows/System32/"@,
            "C:/Users/*/AppData/Roaming/"@,
            "C:/ProgramData/"@,
            "C:/System Volume Information/"@,
            "C:/$Recycle.Bin/"@,
        ],
        Platform::MacOs => seq![
            "/System/"@,
            "/Library/"@,
            "/Applications/"@,
            "/usr/"@,
            "/private/"@,
            "/etc/"@,
            "/boot/"@,
            "/sys/"@,
            "/proc/"@,
            "/dev/"@,
            "/root/"@,
            "/bin/"@,
            "/sbin/"@,
            "/var/log/"@,
        ],
        Platform::Linux => seq![
            "/etc/"@,
            "/boot/"@,
            "/sys/"@,
            "/proc/"@,
            "/dev/"@,
            "/root/"@,
            "/usr/bin/"@,
            "/usr/sbin/"@,
            "/sbin/"@,
            "/bin/"@,
            "/var/log/"@,
            "/lib/"@,
            "/lib64/"@,
        ],
    }
}

/// The paths that are allowed by default, as exceptions to the denied ones.
pub open spec fn default_allowed_paths(platform: Platform) -> Seq<Seq<char>> {
    match platform {
        Platform::Windows => seq![
            "C:/Windows/Temp/"@,
            "C:/Users/*/AppData/Local/EXEX/"@,
            "C:/Users/*/Projects/"@,
            "C:/temp/"@,
            "C:/tmp/"@,
        ],
        Platform::MacOs => seq![
            "/tmp/"@,
            "/var/tmp/"@,
            "/Users/*/Projects/"@,
            "/Users/*/Documents/"@,
            "/Users/*/Downloads/"@,
            "/Users/*/Desktop/"@,
        ],
        Platform::Linux => seq![
            "/tmp/"@,
            "/var/tmp/"@,
            "/home/*/Projects/"@,
            "/home/*/Documents/"@,
            "/home/*/Downloads/"@,
            "/home/*/Desktop/"@,
        ],
    }
}

/// The commands that are whitelisted by default.
pub open spec fn default_whitelist() -> Seq<Seq<char>> {
    seq![
        "npm"@,
        "node"@,
        "git"@,
        "code"@,
        "python"@,
        "pip"@,
        "cargo"@,
        "rustc"@,
        "echo"@,
        "dir"@,
        "ls"@,
        "pwd"@,
        "whoami"@,
    ]
}

/// The commands that are blacklisted by default.
pub open spec fn default_blacklist() -> Seq<Seq<char>> {
    seq![
        "rm"@,
        "rmdir"@,
        "del"@,
        "format"@,
        "fdisk"@,
        "shutdown"@,
        "reboot"@,
        "halt"@,
        "poweroff"@,
        "mkfs"@,
        "dd"@,
        "sudo"@,
        "su"@,
        "passwd"@,
        "chmod"@,
        "chown"@,
    ]
}

/// True when `config` is the default configuration of `platform` with the
/// given audit file.
pub open spec fn is_default_config(config: Config, platform: Platform, audit_file: Seq<char>) -> bool {
    &&& config.version@ == "1.0"@
    &&& config.server.host@ == "127.0.0.1"@
    &&& config.server.port == 8080
    &&& texts(config.security.allowed_paths@) == default_allowed_paths(platform)
    &&& texts(config.security.disallowed_paths@) == default_disallowed_paths(platform)
    &&& texts(config.security.command_whitelist@) == default_whitelist()
    &&& config.security.command_blacklist is Some
    &&& blacklist_of(config) == default_blacklist()
    &&& config.security.max_file_size_mb == 100
    &&& config.logging.level@ == "info"@
    &&& config.logging.audit_file@ == audit_file
}

proof fn lemma_default_paths_are_visible(platform: Platform)
    ensures
        default_disallowed_paths(platform).len() > 0,
        !has_blank(default_disallowed_paths(platform)),
        !has_blank(default_allowed_paths(platform)),
{
    match platform {
        Platform::Windows => {
            reveal_strlit("C:/Windows/");
            reveal_strlit("C:/Program Files/");
            reveal_strlit("C:/Program Files (x86)/");
            reveal_strlit("C:/Windows/System32/");
            reveal_strlit("C:/Users/*/AppData/Roaming/");
            reveal_strlit("C:/ProgramData/");
            reveal_strlit("C:/System Volume Information/");
            reveal_strlit("C:/$Recycle.Bin/");
            let denied = default_disallowed_paths(Platform::Windows);
            assert forall|i: int| 0 <= i < denied.len() implies !blank(#[trigger] denied[i]) by {
                assert(!is_white_space(denied[i][0]));
            }
            reveal_strlit("C:/Windows/Temp/");
            reveal_strlit("C:/Users/*/AppData/Local/EXEX/");
            reveal_strlit("C:/Users/*/Projects/");
            reveal_strlit("C:/temp/");
            reveal_strlit("C:/tmp/");
            let allowed = default_allowed_paths(Platform::Windows);
            assert forall|i: int| 0 <= i < allowed.len() implies !blank(#[trigger] allowed[i]) by {
                assert(!is_white_space(allowed[i][0]));
            }
        },
        Platform::MacOs => {
            reveal_strlit("/System/");
            reveal_strlit("/Library/");
            reveal_strlit("/Applications/");
            reveal_strlit("/usr/");
            reveal_strlit("/private/");
            reveal_strlit("/etc/");
            reveal_strlit("/boot/");
            reveal_strlit("/sys/");
            reveal_strlit("/proc/");
            reveal_strlit("/dev/");
            reveal_strlit("/root/");
            reveal_strlit("/bin/");
            reveal_strlit("/sbin/");
            reveal_strlit("/var/log/");
            let denied = default_disallowed_paths(Platform::MacOs);
            assert forall|i: int| 0 <= i < denied.len() implies !blank(#[trigger] denied[i]) by {
                assert(!is_white_space(denied[i][0]));
            }
            reveal_strlit("/tmp/");
            reveal_strlit("/var/tmp/");
            reveal_strlit("/Users/*/Projects/");
            reveal_strlit("/Users/*/Documents/");
            reveal_strlit("/Users/*/Downloads/");
            reveal_strlit("/Users/*/Desktop/");
            let allowed = default_allowed_paths(Platform::MacOs);
            assert forall|i: int| 0 <= i < allowed.len() implies !blank(#[trigger] allowed[i]) by {
                assert(!is_white_space(allowed[i][0]));
            }
        },
        Platform::Linux => {
            reveal_strlit("/etc/");
            reveal_strlit("/boot/");
            reveal_strlit("/sys/");
            reveal_strlit("/proc/");
            reveal_strlit("/dev/");
            reveal_strlit("/root/");
            reveal_strlit("/usr/bin/");
            reveal_strlit("/usr/sbin/");
            reveal_strlit("/sbin/");
            reveal_strlit("/bin/");
            reveal_strlit("/var/log/");
            reveal_strlit("/lib/");
            reveal_strlit("/lib64/");
            let denied = default_disallowed_paths(Platform::Linux);
            assert forall|i: int| 0 <= i < denied.len() implies !blank(#[trigger] denied[i]) by {
                assert(!is_white_space(denied[i][0]));
            }
            reveal_strlit("/tmp/");
            reveal_strlit("/var/tmp/");
            reveal_strlit("/home/*/Projects/");
            reveal_strlit("/home/*/Documents/");
            reveal_strlit("/home/*/Downloads/");
            reveal_strlit("/home/*/Desktop/");
            let allowed = default_allowed_paths(Platform::Linux);
            assert forall|i: int| 0 <= i < allowed.len() implies !blank(#[trigger] allowed[i]) by {
                assert(!is_white_space(allowed[i][0]));
            }
        },
    }
}

proof fn lemma_default_commands_are_visible()
    ensures
        !has_blank(default_whitelist()),
        !has_blank(default_blacklist()),
{
    reveal_strlit("npm");
    reveal_strlit("node");
    reveal_strlit("git");
    reveal_strlit("code");
    reveal_strlit("python");
    reveal_strlit("pip");
    reveal_strlit("cargo");
    reveal_strlit("rustc");
    reveal_strlit("echo");
    reveal_strlit("dir");
    reveal_strlit("ls");
    reveal_strlit("pwd");
    reveal_strlit("whoami");
    let whitelist = default_whitelist();
    assert forall|i: int| 0 <= i < whitelist.len() implies !blank(#[trigger] whitelist[i]) by {
        assert(!is_white_space(whitelist[i][0]));
    }
    reveal_strlit("rm");
    reveal_strlit("rmdir");
    reveal_strlit("del");
    reveal_strlit("format");
    reveal_strlit("fdisk");
    reveal_strlit("shutdown");
    reveal_strlit("reboot");
    reveal_strlit("halt");
    reveal_strlit("poweroff");
    reveal_strlit("mkfs");
    reveal_strlit("dd");
    reveal_strlit("sudo");
    reveal_strlit("su");
    reveal_strlit("passwd");
    reveal_strlit("chmod");
    reveal_strlit("chown");
    let blacklist = default_blacklist();
    assert forall|i: int| 0 <= i < blacklist.len() implies !blank(#[trigger] blacklist[i]) by {
        assert(!is_white_space(blacklist[i][0]));
    }
}

/// The default configuration of every platform is valid, whatever its audit
/// file is.
pub proof fn default_config_is_valid(config: Config, platform: Platform, audit_file: Seq<char>)
    requires
        is_default_config(config, platform, audit_file),
    ensures
        first_fault(config) is None,
{
    reveal_strlit("1.0");
    reveal_strlit("127.0.0.1");
    assert(!is_white_space(config.version@[0]));
    assert(!is_white_space(config.server.host@[0]));
    lemma_default_paths_are_visible(platform);
    lemma_default_commands_are_visible();
}

/// No command is whitelisted and blacklisted by default.
pub proof fn default_command_lists_are_disjoint()
    ensures
        forall|i: int, j: int|
            0 <= i < default_whitelist().len() && 0 <= j < default_blacklist().len()
                ==> #[trigger] default_whitelist()[i] != #[trigger] default_blacklist()[j],
{
    reveal_strlit("npm");
    reveal_strlit("node");
    reveal_strlit("git");
    reveal_strlit("code");
    reveal_strlit("python");
    reveal_strlit("pip");
    reveal_strlit("cargo");
    reveal_strlit("rustc");
    reveal_strlit("echo");
    reveal_strlit("dir");
    reveal_strlit("ls");
    reveal_strlit("pwd");
    reveal_strlit("whoami");
    reveal_strlit("rm");
    reveal_strlit("rmdir");
    reveal_strlit("del");
    reveal_strlit("format");
    reveal_strlit("fdisk");
    reveal_strlit("shutdown");
    reveal_strlit("reboot");
    reveal_strlit("halt");
    reveal_strlit("poweroff");
    reveal_strlit("mkfs");
    reveal_strlit("dd");
    reveal_strlit("sudo");
    reveal_strlit("su");
    reveal_strlit("passwd");
    reveal_strlit("chmod");
    reveal_strlit("chown");
    let allowed = default_whitelist();
    let denied = default_blacklist();
    assert forall|i: int, j: int| 0 <= i < allowed.len() && 0 <= j < denied.len() implies
        #[trigger] allowed[i] != #[trigger] denied[j] by {
        assert(allowed[i][0] != denied[j][0] || allowed[i][1] != denied[j][1]);
    }
}

/// Copies string literals into owned strings.
fn owned_list(items: Vec<&'static str>) -> (out: Vec<String>)
    ensures
        texts(out@) == items@.map_values(|s: &'static str| s@),
{
    let mut out: Vec<String> = Vec::new();
    let mut i: usize = 0;
    while i < items.len()
        invariant
            0 <= i <= items.len(),
            out.len() == i,
            forall|j: int| 0 <= j < i ==> (#[trigger] out@[j])@ == items@[j]@,
        decreases items.len() - i,
    {
        out.push(items[i].to_owned());
        i += 1;
    }
    out
}

fn disallowed_defaults(platform: Platform) -> (list: Vec<String>)
    ensures
        texts(list@) == default_disallowed_paths(platform),
{
    let items = match platform {
        Platform::Windows => vec![
            "C:/Windows/",
            "C:/Program Files/",
            "C:/Program Files (x86)/",
            "C:/Windows/System32/",
            "C:/Users/*/AppData/Roaming/",
            "C:/ProgramData/",
            "C:/System Volume Information/",
            "C:/$Recycle.Bin/",
        ],
        Platform::MacOs => vec![
            "/System/",
            "/Library/",
            "/Applications/",
            "/usr/",
            "/private/",
            "/etc/",
            "/boot/",
            "/sys/",
            "/proc/",
            "/dev/",
            "/root/",
            "/bin/",
            "/sbin/",
            "/var/log/",
        ],
        Platform::Linux => vec![
            "/etc/",
            "/boot/",
            "/sys/",
            "/proc/",
            "/dev/",
            "/root/",
            "/usr/bin/",
            "/usr/sbin/",
            "/sbin/",
            "/bin/",
            "/var/log/",
            "/lib/",
            "/lib64/",
        ],
    };
    owned_list(items)
}

fn allowed_defaults(platform: Platform) -> (list: Vec<String>)
    ensures
        texts(list@) == default_allowed_paths(platform),
{
    let items = match platform {
        Platform::Windows => vec![
            "C:/Windows/Temp/",
            "C:/Users/*/AppData/Local/EXEX/",
            "C:/Users/*/Projects/",
            "C:/temp/",
            "C:/tmp/",
        ],
        Platform::MacOs => vec![
            "/tmp/",
            "/var/tmp/",
            "/Users/*/Projects/",
            "/Users/*/Documents/",
            "/Users/*/Downloads/",
            "/Users/*/Desktop/",
        ],
        Platform::Linux => vec![
            "/tmp/",
            "/var/tmp/",
            "/home/*/Projects/",
            "/home/*/Documents/",
            "/home/*/Downloads/",
            "/home/*/Desktop/",
        ],
    };
    owned_list(items)
}

fn whitelist_defaults() -> (list: Vec<String>)
    ensures
        texts(list@) == default_whitelist(),
{
    let items = vec![
        "npm",
        "node",
        "git",
        "code",
        "python",
        "pip",
        "cargo",
        "rustc",
        "echo",
        "dir",
        "ls",
        "pwd",
        "whoami",
    ];
    owned_list(items)
}

fn blacklist_defaults() -> (list: Vec<String>)
    ensures
        texts(list@) == default_blacklist(),
{
    let items = vec![
        "rm",
        "rmdir",
        "del",
        "format",
        "fdisk",
        "shutdown",
        "reboot",
        "halt",
        "poweroff",
        "mkfs",
        "dd",
        "sudo",
        "su",
        "passwd",
        "chmod",
        "chown",
    ];
    owned_list(items)
}

/// The default configuration of `platform` with the given audit file.
pub fn default_config_with(platform: Platform, audit_file: String) -> (config: Config)
    ensures
        is_default_config(config, platform, audit_file@),
{
    Config {
        version: "1.0".to_owned(),
        server: ServerConfig { host: "127.0.0.1".to_owned(), port: 8080 },
        security: SecurityConfig {
            allowed_paths: allowed_defaults(platform),
            disallowed_paths: disallowed_defaults(platform),
            command_whitelist: whitelist_defaults(),
            command_blacklist: Some(blacklist_defaults()),
            max_file_size_mb: 100,
        },
        logging: LoggingConfig { level: "info".to_owned(), audit_file },
    }
}

/// The audit file below the configuration directory, or a bare file name
/// when that directory is not known.
pub fn audit_file_from(platform: Platform, base: Option<String>) -> (file: String)
    ensures
        file@ == audit_file_for(platform, opt_text(base)),
{
    match config_dir_from(platform, base) {
        Ok(dir) => path_join(dir.as_str(), "audit.log"),
        Err(_) => "audit.log".to_owned(),
    }
}

/// The default configuration of `platform`. The audit file lies in the
/// configuration directory; whatever base directory the environment gives,
/// it is `audit_file_for` of it.
pub fn get_default_config(platform: Platform) -> (config: Config)
    ensures
        exists|base: Option<Seq<char>>|
            is_default_config(config, platform, audit_file_for(platform, base)),
        first_fault(config) is None,
{
    let config = default_config_with(platform, audit_file_from(platform, base_dir(platform)));
    proof {
        default_config_is_valid(config, platform, config.logging.audit_file@);
    }
    config
}

/// The configuration to run with: the loaded one when there is one and it is
/// valid, the fallback otherwise. With a valid fallback, such as the default
/// configuration, the result is valid whatever was loaded.
pub fn select_config(loaded: Option<Config>, fallback: Config) -> (config: Config)
    ensures
        config == match loaded {
            Some(candidate) => if first_fault(candidate) is None {
                candidate
            } else {
                fallback
            },
            None => fallback,
        },
        first_fault(fallback) is None ==> first_fault(config) is None,
{
    match loaded {
        Some(candidate) => {
            if check_config(&candidate).is_none() {
                candidate
            } else {
                fallback
            }
        },
        None => fallback,
    }
}

} // verus!
