//! The policy engine: the rule store and the decisions taken from it.
//!
//! A path is allowed when it lies under an allow rule; otherwise it is denied
//! when it lies under a deny rule; otherwise it is allowed. A path that
//! cannot be resolved is denied. A command is denied when its identifier is
//! blacklisted, or when a whitelist exists and does not hold it. Command
//! entries and identifiers are held in lower case, so that the case of a
//! command makes no difference.

use vstd::prelude::*;
use crate::config::blacklist_of;
use crate::content::{sanitize_text, sanitized};
use crate::models::Config;
use crate::paths::{
    canonicalize, file_stem, file_stem_of, normalize_separators, normalized, path_has_prefix,
    path_starts_with, resolve_path, resolved_path, Platform,
};
use crate::text::{
    chars_of, contains_fragment, first_word, first_word_of, has_fragment, list_contains,
    lowercased, opt_text, texts, to_lowercase,
};

verus! {

/// Why a request was denied.
#[derive(Clone, Copy, Debug, PartialEq, Eq, Structural)]
pub enum DenyReason {
    /// Neither the path nor its parent directory could be resolved.
    UnresolvablePath,
    /// The path lies under a deny rule and under no allow rule.
    DeniedPath,
    /// The command identifier is blacklisted.
    BlacklistedCommand,
    /// A whitelist is configured and does not hold the command identifier.
    CommandNotWhitelisted,
}

/// The outcome of a policy decision.
#[derive(Clone, Copy, Debug, PartialEq, Eq, Structural)]
pub enum PolicyVerdict {
    Allow,
    Deny(DenyReason),
}

/// The rules as the contracts see them. The four lists hold no entry twice;
/// their order carries no meaning. The entries of the two command lists are
/// in lower case.
pub struct RuleStore {
    pub allow: Seq<Seq<char>>,
    pub deny: Seq<Seq<char>>,
    pub whitelist: Seq<Seq<char>>,
    pub blacklist: Seq<Seq<char>>,
    pub max_file_size_mb: u64,
}

/// Holds the security policy of the daemon, built once from the
/// configuration and never changed afterwards.
pub struct SecurityManager {
    disallowed_paths: Vec<String>,
    allowed_paths: Vec<String>,
    command_whitelist: Vec<String>,
    command_blacklist: Vec<String>,
    max_file_size_mb: u64,
}

/// `items` with every repeated entry dropped; the first occurrence stays.
pub open spec fn distinct(items: Seq<Seq<char>>) -> Seq<Seq<char>>
    decreases items.len(),
{
    if items.len() == 0 {
        Seq::<Seq<char>>::empty()
    } else {
        let init = distinct(items.drop_last());
        if init.contains(items.last()) {
            init
        } else {
            init.push(items.last())
        }
    }
}

/// The rule that a normalized pattern gives: its canonical form when it has
/// one, the pattern itself otherwise.
pub open spec fn rule_for(pattern: Seq<char>, canonical: Option<Seq<char>>) -> Seq<char> {
    match canonical {
        Some(path) => path,
        None => pattern,
    }
}

/// The rules that configured patterns give on `platform`, where
/// `canonical[i]` is the outcome of canonicalizing the `i`-th normalized
/// pattern.
pub open spec fn rules_for(
    patterns: Seq<Seq<char>>,
    platform: Platform,
    canonical: Seq<Option<Seq<char>>>,
) -> Seq<Seq<char>> {
    Seq::new(patterns.len(), |i: int| rule_for(normalized(patterns[i], platform), canonical[i]))
}

/// True when `path` lies under one of `rules`.
pub open spec fn matches_any(path: Seq<char>, rules: Seq<Seq<char>>) -> bool {
    exists|i: int| 0 <= i < rules.len() && path_has_prefix(path, #[trigger] rules[i])
}

/// The verdict on a resolved path, given whether it lies under an allow rule
/// and whether it lies under a deny rule: allow overrides deny, and a path
/// under neither is allowed.
pub open spec fn verdict_of_matches(under_allow: bool, under_deny: bool) -> PolicyVerdict {
    if under_allow {
        PolicyVerdict::Allow
    } else if under_deny {
        PolicyVerdict::Deny(DenyReason::DeniedPath)
    } else {
        PolicyVerdict::Allow
    }
}

/// The verdict on a resolved path; `None` stands for a path that could not be
/// resolved.
///
/// The rules are tried in a fixed order and the first match decides: an
/// allow rule grants access whatever the deny rules say, so that a narrow
/// exception can be carved out of a broadly denied location; then a deny
/// rule refuses. A path under no rule is allowed: the policy is permissive
/// outside the deny rules by design, and operators are expected to list
/// everything dangerous there. Rules are compared as plain path prefixes,
/// component by component; a wildcard in a rule has no special meaning.
pub open spec fn path_verdict(rules: RuleStore, resolved: Option<Seq<char>>) -> PolicyVerdict {
    match resolved {
        None => PolicyVerdict::Deny(DenyReason::UnresolvablePath),
        Some(path) => verdict_of_matches(
            matches_any(path, rules.allow),
            matches_any(path, rules.deny),
        ),
    }
}

/// True when `allowed` is the answer to "may `path` be touched" under some
/// state of the filesystem: the verdict on what the path resolves to there.
pub open spec fn path_answer(rules: RuleStore, path: Seq<char>, allowed: bool) -> bool {
    exists|full: Option<Seq<char>>, parent: Option<Seq<char>>|
        allowed == (path_verdict(rules, resolved_path(path, full, parent))
            == PolicyVerdict::Allow)
}

/// True when `command` passes the whitelist and the blacklist.
pub open spec fn command_allowed(rules: RuleStore, command: Seq<char>) -> bool {
    name_verdict(rules, command_name(command)) == PolicyVerdict::Allow
}

/// The part of a raw command that names the executable: its first
/// whitespace-delimited word, or the whole command when it has none.
pub open spec fn command_head(command: Seq<char>) -> Seq<char> {
    if first_word(command).len() == 0 {
        command
    } else {
        first_word(command)
    }
}

/// The identifier a raw command is judged by, in lower case: the file stem
/// of its head, or the head itself when it has no file stem.
pub open spec fn command_name(command: Seq<char>) -> Seq<char> {
    match file_stem_of(command_head(command)) {
        Some(stem) => lowercased(stem),
        None => lowercased(command_head(command)),
    }
}

/// Each of `items` in lower case.
pub open spec fn lowered(items: Seq<Seq<char>>) -> Seq<Seq<char>> {
    items.map_values(|s: Seq<char>| lowercased(s))
}

/// The verdict on a command identifier. The identifier is compared with the
/// stored entries as it is; `command_name` gives it in lower case, as the
/// entries are.
pub open spec fn name_verdict(rules: RuleStore, name: Seq<char>) -> PolicyVerdict {
    if rules.blacklist.contains(name) {
        PolicyVerdict::Deny(DenyReason::BlacklistedCommand)
    } else if rules.whitelist.len() > 0 && !rules.whitelist.contains(name) {
        PolicyVerdict::Deny(DenyReason::CommandNotWhitelisted)
    } else {
        PolicyVerdict::Allow
    }
}

/// The substrings that mark a command as destructive.
pub open spec fn destructive_fragments() -> Seq<Seq<char>> {
    seq![
        "format"@,
        "del"@,
        "rmdir"@,
        "rd"@,
        "deltree"@,
        "shutdown"@,
        "restart"@,
        "reboot"@,
        "net user"@,
        "net localgroup"@,
        "reg delete"@,
        "reg add"@,
        "sc delete"@,
        "sc create"@,
    ]
}

/// True when `lowered` holds none of the destructive fragments.
pub open spec fn fragment_free(lowered: Seq<char>) -> bool {
    forall|i: int|
        0 <= i < destructive_fragments().len() ==> !has_fragment(
            lowered,
            #[trigger] destructive_fragments()[i],
        )
}

/// Whether a file of `size_bytes` bytes is within a limit of `limit_mb`
/// mebibytes; a started mebibyte does not count.
pub open spec fn within_limit(size_bytes: u64, limit_mb: u64) -> bool {
    size_bytes as int / 1048576 <= limit_mb as int
}

/// `distinct` keeps exactly the entries of the list and holds none twice.
pub proof fn distinct_is_a_set(items: Seq<Seq<char>>)
    ensures
        distinct(items).no_duplicates(),
        forall|x: Seq<char>| #[trigger] distinct(items).contains(x) <==> items.contains(x),
    decreases items.len(),
{
    if items.len() > 0 {
        let init = items.drop_last();
        let last = items.last();
        let kept = distinct(init);
        distinct_is_a_set(init);
        assert forall|x: Seq<char>| #[trigger] distinct(items).contains(x) <==> items.contains(
            x,
        ) by {
            assert(kept.contains(x) <==> init.contains(x));
            if items.contains(x) && !distinct(items).contains(x) {
                let k = choose|k: int| 0 <= k < items.len() && items[k] == x;
                if k < init.len() {
                    assert(init[k] == x);
                    let j = choose|j: int| 0 <= j < kept.len() && kept[j] == x;
                    assert(distinct(items)[j] == x);
                } else if kept.contains(last) {
                    let j = choose|j: int| 0 <= j < kept.len() && kept[j] == x;
                    assert(distinct(items)[j] == x);
                } else {
                    assert(distinct(items)[kept.len() as int] == x);
                }
            }
            if distinct(items).contains(x) && !items.contains(x) {
                let j = choose|j: int| 0 <= j < distinct(items).len() && distinct(items)[j] == x;
                if j < kept.len() {
                    assert(kept[j] == x);
                    let k = choose|k: int| 0 <= k < init.len() && init[k] == x;
                    assert(items[k] == x);
                } else {
                    assert(items[items.len() - 1] == x);
                }
            }
        }
    }
}

/// A path under a deny rule and under no allow rule is denied.
pub proof fn denied_under_deny_rule(rules: RuleStore, path: Seq<char>)
    requires
        matches_any(path, rules.deny),
        !matches_any(path, rules.allow),
    ensures
        path_verdict(rules, Some(path)) == PolicyVerdict::Deny(DenyReason::DeniedPath),
{
}

/// A path under an allow rule is allowed, also when a deny rule covers it:
/// allow overrides deny.
pub proof fn allow_overrides_deny(rules: RuleStore, path: Seq<char>)
    requires
        matches_any(path, rules.allow),
    ensures
        path_verdict(rules, Some(path)) == PolicyVerdict::Allow,
{
}

/// A path under no rule at all is allowed: the policy is permissive outside
/// the deny list.
pub proof fn allowed_outside_rules(rules: RuleStore, path: Seq<char>)
    requires
        !matches_any(path, rules.allow),
        !matches_any(path, rules.deny),
    ensures
        path_verdict(rules, Some(path)) == PolicyVerdict::Allow,
{
}

/// A path that does not canonicalize and whose parent does not canonicalize
/// either is denied, whatever the rules are.
pub proof fn unresolvable_is_denied(rules: RuleStore, path: Seq<char>)
    ensures
        resolved_path(path, None, None) is None,
        path_verdict(rules, resolved_path(path, None, None)) == PolicyVerdict::Deny(
            DenyReason::UnresolvablePath,
        ),
{
}

/// Adding an allow rule never takes access away: a path that was allowed
/// stays allowed.
pub proof fn allow_rule_only_widens(rules: RuleStore, rule: Seq<char>, path: Seq<char>)
    requires
        path_verdict(rules, Some(path)) == PolicyVerdict::Allow,
    ensures
        path_verdict(RuleStore { allow: rules.allow.push(rule), ..rules }, Some(path))
            == PolicyVerdict::Allow,
{
    let wider = rules.allow.push(rule);
    if matches_any(path, rules.allow) {
        let i = choose|i: int|
            0 <= i < rules.allow.len() && path_has_prefix(path, #[trigger] rules.allow[i]);
        assert(path_has_prefix(path, wider[i]));
    }
}

/// Adding a deny rule never grants access: a path that was denied stays
/// denied.
pub proof fn deny_rule_only_narrows(rules: RuleStore, rule: Seq<char>, path: Seq<char>)
    requires
        path_verdict(rules, Some(path)) == PolicyVerdict::Deny(DenyReason::DeniedPath),
    ensures
        path_verdict(RuleStore { deny: rules.deny.push(rule), ..rules }, Some(path))
            == PolicyVerdict::Deny(DenyReason::DeniedPath),
{
    let wider = rules.deny.push(rule);
    let i = choose|i: int|
        0 <= i < rules.deny.len() && path_has_prefix(path, #[trigger] rules.deny[i]);
    assert(path_has_prefix(path, wider[i]));
}

/// A path that does not resolve is denied, so a denial is a possible answer
/// for every path.
pub proof fn denial_is_possible(rules: RuleStore, path: Seq<char>)
    ensures
        path_answer(rules, path, false),
{
    assert(false == (path_verdict(rules, resolved_path(path, None, None))
        == PolicyVerdict::Allow));
}

/// A command whose identifier is blacklisted is denied, also when the
/// whitelist holds the identifier.
pub proof fn blacklist_wins(rules: RuleStore, command: Seq<char>)
    requires
        rules.blacklist.contains(command_name(command)),
    ensures
        name_verdict(rules, command_name(command)) == PolicyVerdict::Deny(
            DenyReason::BlacklistedCommand,
        ),
{
}

/// With a whitelist in place, a command whose identifier is on neither list
/// is denied.
pub proof fn whitelist_is_required(rules: RuleStore, command: Seq<char>)
    requires
        rules.whitelist.len() > 0,
        !rules.whitelist.contains(command_name(command)),
        !rules.blacklist.contains(command_name(command)),
    ensures
        name_verdict(rules, command_name(command)) == PolicyVerdict::Deny(
            DenyReason::CommandNotWhitelisted,
        ),
{
}

/// Without a whitelist, a command whose identifier is not blacklisted is
/// allowed.
pub proof fn allowed_without_whitelist(rules: RuleStore, command: Seq<char>)
    requires
        rules.whitelist.len() == 0,
        !rules.blacklist.contains(command_name(command)),
    ensures
        name_verdict(rules, command_name(command)) == PolicyVerdict::Allow,
{
}

/// The message that explains a denial.
pub open spec fn reason_text(reason: DenyReason) -> Seq<char> {
    match reason {
        DenyReason::UnresolvablePath => "Path cannot be resolved"@,
        DenyReason::DeniedPath => "Path is under a disallowed location"@,
        DenyReason::BlacklistedCommand => "Command is blacklisted"@,
        DenyReason::CommandNotWhitelisted => "Command is not in the whitelist"@,
    }
}

/// Collapsing repeated rules changes no path decision: a path lies under one
/// of the collapsed rules exactly when it lies under one of the rules.
pub proof fn collapse_keeps_matches(path: Seq<char>, rules: Seq<Seq<char>>)
    ensures
        matches_any(path, distinct(rules)) <==> matches_any(path, rules),
{
    distinct_is_a_set(rules);
    if matches_any(path, rules) {
        let i = choose|i: int| 0 <= i < rules.len() && path_has_prefix(path, #[trigger] rules[i]);
        assert(rules.contains(rules[i]));
        assert(distinct(rules).contains(rules[i]));
        let j = choose|j: int| 0 <= j < distinct(rules).len() && distinct(rules)[j] == rules[i];
        assert(path_has_prefix(path, distinct(rules)[j]));
    }
    if matches_any(path, distinct(rules)) {
        let j = choose|j: int|
            0 <= j < distinct(rules).len() && path_has_prefix(path, #[trigger] distinct(rules)[j]);
        assert(distinct(rules).contains(distinct(rules)[j]));
        assert(rules.contains(distinct(rules)[j]));
        let i = choose|i: int| 0 <= i < rules.len() && rules[i] == distinct(rules)[j];
        assert(path_has_prefix(path, rules[i]));
    }
}

/// Collapsing repeated entries changes no command decision: the verdict on
/// an identifier is the one that the lists give as they were configured.
pub proof fn collapse_keeps_command_verdict(
    rules: RuleStore,
    whitelist: Seq<Seq<char>>,
    blacklist: Seq<Seq<char>>,
    name: Seq<char>,
)
    requires
        rules.whitelist == distinct(whitelist),
        rules.blacklist == distinct(blacklist),
    ensures
        name_verdict(rules, name) == name_verdict(
            RuleStore { whitelist: whitelist, blacklist: blacklist, ..rules },
            name,
        ),
{
    distinct_is_a_set(whitelist);
    distinct_is_a_set(blacklist);
    if whitelist.len() > 0 {
        assert(whitelist.contains(whitelist[0]));
        assert(distinct(whitelist).contains(whitelist[0]));
    }
    if distinct(whitelist).len() > 0 {
        assert(distinct(whitelist).contains(distinct(whitelist)[0]));
        assert(whitelist.contains(distinct(whitelist)[0]));
    }
}

/// Copies `items`, dropping every repeated entry.
pub fn distinct_texts(items: &Vec<String>) -> (out: Vec<String>)
    ensures
        texts(out@) == distinct(texts(items@)),
{
    let mut out: Vec<String> = Vec::new();
    let mut i: usize = 0;
    while i < items.len()
        invariant
            0 <= i <= items.len(),
            texts(out@) == distinct(texts(items@).take(i as int)),
        decreases items.len() - i,
    {
        assert(texts(items@).take(i + 1).drop_last() =~= texts(items@).take(i as int));
        if !list_contains(&out, items[i].as_str()) {
            out.push(items[i].clone());
        }
        i += 1;
    }
    assert(texts(items@).take(items.len() as int) =~= texts(items@));
    out
}

/// The rule for a normalized pattern, given the outcome of canonicalizing it.
pub fn rule_from(pattern: String, canonical: Option<String>) -> (rule: String)
    ensures
        rule@ == rule_for(pattern@, opt_text(canonical)),
{
    match canonical {
        Some(path) => path,
        None => pattern,
    }
}

/// Builds the rules for configured path patterns: each pattern is normalized
/// for `platform` and canonicalized against the filesystem; a pattern that
/// does not resolve is kept in its normalized form. Repeated rules collapse.
pub fn build_rules(patterns: &Vec<String>, platform: Platform) -> (rules: Vec<String>)
    ensures
        exists|canonical: Seq<Option<Seq<char>>>|
            canonical.len() == patterns.len() && texts(rules@) == distinct(
                rules_for(texts(patterns@), platform, canonical),
            ),
{
    let mut found: Vec<String> = Vec::new();
    let ghost mut canonical: Seq<Option<Seq<char>>> = Seq::empty();
    let mut i: usize = 0;
    while i < patterns.len()
        invariant
            0 <= i <= patterns.len(),
            canonical.len() == i,
            found.len() == i,
            forall|j: int|
                0 <= j < i ==> (#[trigger] found@[j])@ == rule_for(
                    normalized(patterns@[j]@, platform),
                    canonical[j],
                ),
        decreases patterns.len() - i,
    {
        let pattern = normalize_separators(patterns[i].as_str(), platform);
        let outcome = canonicalize(pattern.as_str());
        proof {
            canonical = canonical.push(opt_text(outcome));
        }
        found.push(rule_from(pattern, outcome));
        i += 1;
    }
    let rules = distinct_texts(&found);
    assert(texts(found@) =~= rules_for(texts(patterns@), platform, canonical));
    rules
}

impl DenyReason {
    /// The message that explains this denial.
    pub fn message(&self) -> (text: String)
        ensures
            text@ == reason_text(*self),
    {
        match self {
            DenyReason::UnresolvablePath => "Path cannot be resolved".to_owned(),
            DenyReason::DeniedPath => "Path is under a disallowed location".to_owned(),
            DenyReason::BlacklistedCommand => "Command is blacklisted".to_owned(),
            DenyReason::CommandNotWhitelisted => "Command is not in the whitelist".to_owned(),
        }
    }
}

impl PolicyVerdict {
    /// The verdict on a resolved path, given whether it lies under an allow
    /// rule and whether it lies under a deny rule.
    pub fn from_matches(under_allow: bool, under_deny: bool) -> (verdict: PolicyVerdict)
        ensures
            verdict == verdict_of_matches(under_allow, under_deny),
    {
        if under_allow {
            PolicyVerdict::Allow
        } else if under_deny {
            PolicyVerdict::Deny(DenyReason::DeniedPath)
        } else {
            PolicyVerdict::Allow
        }
    }

    /// The message that explains the verdict when it is a denial.
    pub fn reason(&self) -> (text: Option<String>)
        ensures
            opt_text(text) == match *self {
                PolicyVerdict::Allow => None,
                PolicyVerdict::Deny(reason) => Some(reason_text(reason)),
            },
    {
        match self {
            PolicyVerdict::Allow => None,
            PolicyVerdict::Deny(reason) => Some(reason.message()),
        }
    }

    /// Whether the verdict allows the request.
    pub fn is_allowed(&self) -> (allowed: bool)
        ensures
            allowed == (*self == PolicyVerdict::Allow),
    {
        match self {
            PolicyVerdict::Allow => true,
            PolicyVerdict::Deny(_) => false,
        }
    }
}

impl View for SecurityManager {
    type V = RuleStore;

    closed spec fn view(&self) -> RuleStore {
        RuleStore {
            allow: texts(self.allowed_paths@),
            deny: texts(self.disallowed_paths@),
            whitelist: texts(self.command_whitelist@),
            blacklist: texts(self.command_blacklist@),
            max_file_size_mb: self.max_file_size_mb,
        }
    }
}

impl SecurityManager {
    #[verifier::type_invariant]
    spec fn holds_nothing_twice(&self) -> bool {
        &&& texts(self.allowed_paths@).no_duplicates()
        &&& texts(self.disallowed_paths@).no_duplicates()
        &&& texts(self.command_whitelist@).no_duplicates()
        &&& texts(self.command_blacklist@).no_duplicates()
    }

    /// Builds the rule store from a configuration. Path patterns are
    /// normalized for `platform` and canonicalized where they exist on disk;
    /// the entries of the command lists are stored in lower case; the size
    /// limit is taken as configured. Repeated entries collapse.
    pub fn new(config: Config, platform: Platform) -> (manager: Self)
        ensures
            manager@.whitelist == distinct(lowered(texts(config.security.command_whitelist@))),
            manager@.blacklist == distinct(lowered(blacklist_of(config))),
            manager@.max_file_size_mb == config.security.max_file_size_mb,
            exists|canonical: Seq<Option<Seq<char>>>|
                canonical.len() == config.security.disallowed_paths.len() && manager@.deny
                    == distinct(
                    rules_for(texts(config.security.disallowed_paths@), platform, canonical),
                ),
            exists|canonical: Seq<Option<Seq<char>>>|
                canonical.len() == config.security.allowed_paths.len() && manager@.allow
                    == distinct(
                    rules_for(texts(config.security.allowed_paths@), platform, canonical),
                ),
            manager@.allow.no_duplicates(),
            manager@.deny.no_duplicates(),
            manager@.whitelist.no_duplicates(),
            manager@.blacklist.no_duplicates(),
    {
        let disallowed_paths = build_rules(&config.security.disallowed_paths, platform);
        let allowed_paths = build_rules(&config.security.allowed_paths, platform);
        let command_whitelist = command_rules_of(&config.security.command_whitelist);
        let command_blacklist = match &config.security.command_blacklist {
            Some(list) => command_rules_of(list),
            None => {
                let none: Vec<String> = Vec::new();
                assert(lowered(Seq::<Seq<char>>::empty()) =~= Seq::<Seq<char>>::empty());
                none
            },
        };
        proof {
            let d = choose|canonical: Seq<Option<Seq<char>>>|
                canonical.len() == config.security.disallowed_paths.len() && texts(
                    disallowed_paths@,
                ) == distinct(
                    rules_for(texts(config.security.disallowed_paths@), platform, canonical),
                );
            let a = choose|canonical: Seq<Option<Seq<char>>>|
                canonical.len() == config.security.allowed_paths.len() && texts(allowed_paths@)
                    == distinct(
                    rules_for(texts(config.security.allowed_paths@), platform, canonical),
                );
            distinct_is_a_set(rules_for(texts(config.security.disallowed_paths@), platform, d));
            distinct_is_a_set(rules_for(texts(config.security.allowed_paths@), platform, a));
            distinct_is_a_set(lowered(texts(config.security.command_whitelist@)));
            distinct_is_a_set(lowered(blacklist_of(config)));
        }
        SecurityManager {
            disallowed_paths,
            allowed_paths,
            command_whitelist,
            command_blacklist,
            max_file_size_mb: config.security.max_file_size_mb,
        }
    }

    /// The verdict on a path that has been resolved already; `None` stands
    /// for a path that could not be resolved. An allow rule overrides every
    /// deny rule; a path under no rule at all is allowed.
    pub fn path_decision(&self, resolved: &Option<String>) -> (verdict: PolicyVerdict)
        ensures
            verdict == path_verdict(self@, opt_text(*resolved)),
            *resolved is None ==> verdict == PolicyVerdict::Deny(DenyReason::UnresolvablePath),
            *resolved is Some && matches_any(resolved->0@, self@.allow) ==> verdict
                == PolicyVerdict::Allow,
            *resolved is Some && !matches_any(resolved->0@, self@.allow) && matches_any(
                resolved->0@,
                self@.deny,
            ) ==> verdict == PolicyVerdict::Deny(DenyReason::DeniedPath),
            *resolved is Some && !matches_any(resolved->0@, self@.allow) && !matches_any(
                resolved->0@,
                self@.deny,
            ) ==> verdict == PolicyVerdict::Allow,
    {
        match resolved {
            None => PolicyVerdict::Deny(DenyReason::UnresolvablePath),
            Some(path) => {
                let under_allow = under_any(path.as_str(), &self.allowed_paths);
                let under_deny = !under_allow && under_any(path.as_str(), &self.disallowed_paths);
                PolicyVerdict::from_matches(under_allow, under_deny)
            },
        }
    }

    /// Whether `path` may be touched. The path is resolved against the
    /// filesystem first; whatever that gives, the answer is the verdict on
    /// the resolved path, and a path that does not resolve is denied.
    pub fn is_path_allowed(&self, path: &str) -> (allowed: bool)
        ensures
            path_answer(self@, path@, allowed),
    {
        let resolved = resolve_path(path);
        let verdict = self.path_decision(&resolved);
        let allowed = verdict.is_allowed();
        proof {
            let (full, parent) = choose|full: Option<Seq<char>>, parent: Option<Seq<char>>|
                opt_text(resolved) == resolved_path(path@, full, parent);
        }
        allowed
    }

    /// The verdict on a command identifier as `command_identifier` gives it,
    /// in lower case: denied when blacklisted, also when whitelisted; denied
    /// when a whitelist exists and does not hold it; allowed otherwise.
    pub fn name_decision(&self, name: &str) -> (verdict: PolicyVerdict)
        ensures
            verdict == name_verdict(self@, name@),
            self@.blacklist.contains(name@) ==> verdict == PolicyVerdict::Deny(
                DenyReason::BlacklistedCommand,
            ),
            !self@.blacklist.contains(name@) && self@.whitelist.len() > 0
                && !self@.whitelist.contains(name@) ==> verdict == PolicyVerdict::Deny(
                DenyReason::CommandNotWhitelisted,
            ),
            !self@.blacklist.contains(name@) && (self@.whitelist.len() == 0
                || self@.whitelist.contains(name@)) ==> verdict == PolicyVerdict::Allow,
    {
        if list_contains(&self.command_blacklist, name) {
            PolicyVerdict::Deny(DenyReason::BlacklistedCommand)
        } else if self.command_whitelist.len() > 0 && !list_contains(
            &self.command_whitelist,
            name,
        ) {
            PolicyVerdict::Deny(DenyReason::CommandNotWhitelisted)
        } else {
            PolicyVerdict::Allow
        }
    }

    /// The verdict on a raw command: the verdict on its identifier.
    pub fn command_decision(&self, command: &str) -> (verdict: PolicyVerdict)
        ensures
            verdict == name_verdict(self@, command_name(command@)),
    {
        let name = command_identifier(command);
        self.name_decision(name.as_str())
    }

    /// Whether `command` may be executed under the whitelist and blacklist.
    pub fn is_command_allowed(&self, command: &str) -> (allowed: bool)
        ensures
            allowed == command_allowed(self@, command@),
    {
        self.command_decision(command).is_allowed()
    }

    /// Whether a file of `size_bytes` bytes is within the configured limit.
    pub fn is_file_size_allowed(&self, size_bytes: u64) -> (allowed: bool)
        ensures
            allowed == within_limit(size_bytes, self@.max_file_size_mb),
    {
        let size_mb: u64 = size_bytes / (1024 * 1024);
        size_mb <= self.max_file_size_mb
    }

    /// The deny rules, none of them twice.
    pub fn get_disallowed_paths(&self) -> (rules: &Vec<String>)
        ensures
            texts(rules@) == self@.deny,
            texts(rules@).no_duplicates(),
    {
        proof {
            use_type_invariant(self);
        }
        &self.disallowed_paths
    }

    /// The allow rules, none of them twice.
    pub fn get_allowed_paths(&self) -> (rules: &Vec<String>)
        ensures
            texts(rules@) == self@.allow,
            texts(rules@).no_duplicates(),
    {
        proof {
            use_type_invariant(self);
        }
        &self.allowed_paths
    }

    /// Whether `command` is free of destructive fragments, compared without
    /// regard to case.
    pub fn is_command_safe(&self, command: &str) -> (safe: bool)
        ensures
            safe == fragment_free(lowercased(command@)),
    {
        let lowered = to_lowercase(command);
        is_fragment_free(lowered.as_str())
    }

    /// Normalizes file content for writing: removes NUL characters and turns
    /// every line ending into one line feed.
    pub fn sanitize_content(&self, content: &str) -> (clean: String)
        ensures
            clean@ == sanitized(content@),
    {
        sanitize_text(content)
    }
}

/// Whether `path` lies under one of `rules`.
fn under_any(path: &str, rules: &Vec<String>) -> (found: bool)
    ensures
        found == matches_any(path@, texts(rules@)),
{
    let mut i: usize = 0;
    while i < rules.len()
        invariant
            0 <= i <= rules.len(),
            forall|j: int| 0 <= j < i ==> !path_has_prefix(path@, #[trigger] texts(rules@)[j]),
        decreases rules.len() - i,
    {
        if path_starts_with(path, rules[i].as_str()) {
            assert(path_has_prefix(path@, texts(rules@)[i as int]));
            return true;
        }
        i += 1;
    }
    false
}

/// The identifier a raw command is judged by: its first word, directories
/// and extension stripped, in lower case.
pub fn command_identifier(command: &str) -> (name: String)
    ensures
        name@ == command_name(command@),
{
    let word = first_word_of(command);
    let head = if word.as_str().unicode_len() == 0 {
        command.to_owned()
    } else {
        word
    };
    match file_stem(head.as_str()) {
        Some(stem) => to_lowercase(stem.as_str()),
        None => to_lowercase(head.as_str()),
    }
}

/// Each of `items` in lower case.
pub fn lowercase_all(items: &Vec<String>) -> (out: Vec<String>)
    ensures
        texts(out@) == lowered(texts(items@)),
{
    let mut out: Vec<String> = Vec::new();
    let mut i: usize = 0;
    while i < items.len()
        invariant
            0 <= i <= items.len(),
            out.len() == i,
            forall|j: int| 0 <= j < i ==> (#[trigger] out@[j])@ == lowercased(items@[j]@),
        decreases items.len() - i,
    {
        out.push(to_lowercase(items[i].as_str()));
        i += 1;
    }
    assert(texts(out@) =~= lowered(texts(items@)));
    out
}

/// The command rules that a configured list gives: its entries in lower
/// case, none of them twice.
pub fn command_rules_of(entries: &Vec<String>) -> (rules: Vec<String>)
    ensures
        texts(rules@) == distinct(lowered(texts(entries@))),
{
    let lower = lowercase_all(entries);
    distinct_texts(&lower)
}

/// The destructive fragments, in the order in which they are tried.
fn fragment_list() -> (list: Vec<&'static str>)
    ensures
        list@.map_values(|s: &'static str| s@) == destructive_fragments(),
{
    let list = vec![
        "format",
        "del",
        "rmdir",
        "rd",
        "deltree",
        "shutdown",
        "restart",
        "reboot",
        "net user",
        "net localgroup",
        "reg delete",
        "reg add",
        "sc delete",
        "sc create",
    ];
    list
}

/// Whether `lowered`, a command in lower case, holds none of the destructive
/// fragments.
pub fn is_fragment_free(lowered: &str) -> (free: bool)
    ensures
        free == fragment_free(lowered@),
{
    let hay = chars_of(lowered);
    let list = fragment_list();
    let mut i: usize = 0;
    while i < list.len()
        invariant
            0 <= i <= list.len(),
            hay@ == lowered@,
            list@.map_values(|s: &'static str| s@) == destructive_fragments(),
            forall|j: int| 0 <= j < i ==> !has_fragment(lowered@, #[trigger] destructive_fragments()[j]),
        decreases list.len() - i,
    {
        let needle = chars_of(list[i]);
        if contains_fragment(&hay, &needle) {
            assert(has_fragment(lowered@, destructive_fragments()[i as int]));
            return false;
        }
        i += 1;
    }
    true
}

} // verus!
