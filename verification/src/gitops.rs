//! Git-driven configuration management: validation of configuration changes,
//! sync policies per environment, and the queue of pending changes.

use vstd::prelude::*;
use crate::assoc::{
    assoc_map, keys_distinct, lemma_assoc_absent, lemma_assoc_empty, lemma_assoc_insert, lemma_assoc_lookup,
    lemma_assoc_remove, lemma_assoc_update,
};
use crate::text::owned;
use crate::tracing::{hex_text, is_hex_digit, lemma_hex_text_is_hex};

verus! {

/// A universally unique identifier (`uuid::Uuid`), held opaquely.
#[verifier::external_type_specification]
#[verifier::external_body]
pub struct ExUuid(uuid::Uuid);

/// The 128-bit value of an id, as `Uuid::as_u128` reads it.
pub uninterp spec fn uuid_bits(u: uuid::Uuid) -> u128;

/// A fresh random id (`Uuid::new_v4`); nothing is promised of its value.
#[verifier::external_body]
pub(crate) fn new_uuid() -> (u: uuid::Uuid) {
    uuid::Uuid::new_v4()
}

/// `Uuid::as_u128`: the id's bytes read as one big-endian number. An id is
/// nothing but its bytes, so no other id has the same number.
#[verifier::external_body]
fn uuid_as_u128(u: &uuid::Uuid) -> (r: u128)
    ensures
        r == uuid_bits(*u),
        forall|v: uuid::Uuid| uuid_bits(v) == r ==> v == *u,
{
    u.as_u128()
}

/// The 16 bytes of a 128-bit number, most significant first.
pub open spec fn be_bytes(n: u128) -> Seq<u8> {
    Seq::new(16, |i: int| ((n >> ((8 * (15 - i)) as u128)) & 0xffu128) as u8)
}

/// The hyphenated lowercase text of an id's number: the 32 hexadecimal digits
/// of its bytes, in groups of 8, 4, 4, 4 and 12.
pub open spec fn uuid_hyphenated(n: u128) -> Seq<char> {
    let h = hex_text(be_bytes(n));
    h.subrange(0, 8) + seq!['-'] + h.subrange(8, 12) + seq!['-'] + h.subrange(12, 16) + seq!['-']
        + h.subrange(16, 20) + seq!['-'] + h.subrange(20, 32)
}

/// The hyphenated text of an id is 36 characters: hyphens at 8, 13, 18 and
/// 23, lowercase hexadecimal digits everywhere else.
pub proof fn law_hyphenated_shape(n: u128)
    ensures
        uuid_hyphenated(n).len() == 36,
        forall|i: int| 0 <= i < 36 ==> (if i == 8 || i == 13 || i == 18 || i == 23 {
            #[trigger] uuid_hyphenated(n)[i] == '-'
        } else {
            is_hex_digit(uuid_hyphenated(n)[i])
        }),
{
    let h = hex_text(be_bytes(n));
    lemma_hex_text_is_hex(be_bytes(n));
    let t = uuid_hyphenated(n);
    assert(t =~= h.subrange(0, 8) + seq!['-'] + h.subrange(8, 12) + seq!['-'] + h.subrange(12, 16) + seq!['-']
        + h.subrange(16, 20) + seq!['-'] + h.subrange(20, 32));
    assert forall|i: int| 0 <= i < 36 implies (if i == 8 || i == 13 || i == 18 || i == 23 {
        #[trigger] t[i] == '-'
    } else {
        is_hex_digit(t[i])
    }) by {
        if i < 8 {
            assert(t[i] == h[i]);
        } else if i == 8 {
        } else if i < 13 {
            assert(t[i] == h[i - 1]);
        } else if i == 13 {
        } else if i < 18 {
            assert(t[i] == h[i - 2]);
        } else if i == 18 {
        } else if i < 23 {
            assert(t[i] == h[i - 3]);
        } else if i == 23 {
        } else {
            assert(t[i] == h[i - 4]);
        }
    }
}

/// `Uuid`'s `to_string`: its `Display` writes the hyphenated lowercase form of
/// the id's bytes (`as_u128` reads the same bytes, most significant first).
#[verifier::external_body]
pub(crate) fn uuid_text(u: &uuid::Uuid) -> (s: String)
    ensures
        s@ == uuid_hyphenated(uuid_bits(*u)),
{
    u.to_string()
}

/// `Uuid` is `Copy`: its `clone` gives back the same id.
pub assume_specification[<uuid::Uuid as Clone>::clone](u: &uuid::Uuid) -> (r: uuid::Uuid)
    ensures
        r == *u,
;

/// A repository address.
#[derive(Debug, Clone)]
pub struct RepositoryUrl(pub String);

/// A branch name.
#[derive(Debug, Clone)]
pub struct BranchName(pub String);

/// A commit hash.
#[derive(Debug, Clone)]
pub struct CommitHash(pub String);

/// What a change does to its files.
#[derive(Debug, Clone, Copy, PartialEq, Eq, Structural)]
pub enum ChangeType {
    Create,
    Update,
    Delete,
    Rename,
}

/// Where a change is deployed.
#[derive(Debug, Clone, Copy, PartialEq, Eq, Structural)]
pub enum Environment {
    Development,
    Staging,
    Production,
}

/// A proposed configuration change.
#[derive(Debug, Clone)]
pub struct ConfigChange {
    pub id: uuid::Uuid,
    pub timestamp: std::time::SystemTime,
    pub author: String,
    pub message: String,
    pub files: Vec<String>,
    pub change_type: ChangeType,
    pub target_environment: Environment,
}

/// The outcome of validating a change.
#[derive(Debug, Clone)]
pub struct ValidationResult {
    pub valid: bool,
    pub errors: Vec<String>,
    pub warnings: Vec<String>,
    pub timestamp: std::time::SystemTime,
}

/// The state of a synchronisation.
#[derive(Debug, Clone, Copy, PartialEq, Eq, Structural)]
pub enum SyncStatus {
    Pending,
    Syncing,
    Success,
    Failed,
    RollingBack,
}

/// The outcome of a synchronisation.
#[derive(Debug, Clone)]
pub struct SyncResult {
    pub status: SyncStatus,
    pub commit_hash: CommitHash,
    pub timestamp: std::time::SystemTime,
    pub message: String,
}

/// How grave a failed validation rule is.
#[derive(Debug, Clone, Copy, PartialEq, Eq, Structural)]
pub enum RuleSeverity {
    Error,
    Warning,
    Info,
}

/// A named validation rule.
#[derive(Debug, Clone)]
pub struct ValidationRule {
    pub name: String,
    pub description: String,
    pub severity: RuleSeverity,
    pub enabled: bool,
}

/// How changes reach an environment.
#[derive(Debug, Clone)]
pub struct SyncPolicy {
    pub name: String,
    pub environment: Environment,
    pub auto_sync: bool,
    pub require_approval: bool,
    pub allowed_branches: Vec<BranchName>,
}

/// A working copy of a repository on one branch.
#[derive(Debug)]
pub struct GitClient {
    repository_url: RepositoryUrl,
    local_path: String,
    branch: BranchName,
}

impl GitClient {
    /// The address of the repository.
    pub closed spec fn url_spec(&self) -> Seq<char> {
        self.repository_url.0@
    }

    /// The local path of the working copy.
    pub closed spec fn path_spec(&self) -> Seq<char> {
        self.local_path@
    }

    /// The branch of the working copy.
    pub closed spec fn branch_spec(&self) -> Seq<char> {
        self.branch.0@
    }

    pub fn new(repository_url: RepositoryUrl, local_path: &str, branch: BranchName) -> (c: GitClient)
        ensures
            c.url_spec() == repository_url.0@,
            c.path_spec() == local_path@,
            c.branch_spec() == branch.0@,
    {
        GitClient { repository_url, local_path: owned(local_path), branch }
    }

    /// An equal copy of the client.
    pub fn duplicate(&self) -> (c: GitClient)
        ensures
            c.url_spec() == self.url_spec(),
            c.path_spec() == self.path_spec(),
            c.branch_spec() == self.branch_spec(),
    {
        GitClient {
            repository_url: RepositoryUrl(self.repository_url.0.clone()),
            local_path: self.local_path.clone(),
            branch: BranchName(self.branch.0.clone()),
        }
    }

    /// Clones the repository; the working copy is simulated, so this succeeds.
    pub fn clone(&self) -> (r: Result<(), String>)
        ensures
            r is Ok,
    {
        Ok(())
    }

    /// Pulls the branch; the simulated head is `abc123`.
    pub fn pull(&self) -> (r: Result<CommitHash, String>)
        ensures
            r matches Ok(h) && h.0@ == "abc123"@,
    {
        Ok(CommitHash(owned("abc123")))
    }

    /// Commits files; the simulated commit is `def456`.
    pub fn commit(&self, message: &str, files: &[&str]) -> (r: Result<CommitHash, String>)
        ensures
            r matches Ok(h) && h.0@ == "def456"@,
    {
        Ok(CommitHash(owned("def456")))
    }

    /// Pushes the branch; simulated, so this succeeds.
    pub fn push(&self) -> (r: Result<(), String>)
        ensures
            r is Ok,
    {
        Ok(())
    }

    /// The current commit; simulated as `current`.
    pub fn get_current_commit(&self) -> (r: Result<CommitHash, String>)
        ensures
            r matches Ok(h) && h.0@ == "current"@,
    {
        Ok(CommitHash(owned("current")))
    }

    /// The local path of the working copy.
    pub fn get_path(&self) -> (p: &str)
        ensures
            p@ == self.path_spec(),
    {
        self.local_path.as_str()
    }
}

/// Whether an error rule's check fails on a change. Of the rules this library
/// knows, `required_files` checks that the change touches some file; a rule
/// whose check cannot be judged from the change record passes.
pub open spec fn rule_fails(rule: ValidationRule, change: ConfigChange) -> bool {
    rule.enabled && rule.name@ == "required_files"@ && change.files@.len() == 0
}

/// The errors and warnings the rules report, in rule order: an error for each
/// failing error rule, and a warning for each enabled warning rule.
pub open spec fn rule_reports(rules: Seq<ValidationRule>, change: ConfigChange) -> (Seq<Seq<char>>, Seq<Seq<char>>)
    decreases rules.len(),
{
    if rules.len() == 0 {
        (Seq::empty(), Seq::empty())
    } else {
        let (e, w) = rule_reports(rules.drop_last(), change);
        let r = rules.last();
        if !r.enabled {
            (e, w)
        } else {
            match r.severity {
                RuleSeverity::Error => if rule_fails(r, change) {
                    (e.push("Rule '"@ + r.name@ + "' failed: "@ + r.description@), w)
                } else {
                    (e, w)
                },
                RuleSeverity::Warning => (e, w.push("Rule '"@ + r.name@ + "' warning: "@ + r.description@)),
                RuleSeverity::Info => (e, w),
            }
        }
    }
}

/// The errors and warnings of the environment's own rules: production allows
/// no deletion and wants a commit message of at least ten bytes; staging
/// warns of deletions.
pub open spec fn environment_reports(change: ConfigChange, message_len: nat) -> (Seq<Seq<char>>, Seq<Seq<char>>) {
    match change.target_environment {
        Environment::Production => {
            let e1: Seq<Seq<char>> = if change.change_type == ChangeType::Delete {
                seq!["Production environment does not allow deletions"@]
            } else {
                Seq::empty()
            };
            let e2: Seq<Seq<char>> = if message_len < 10 {
                seq!["Production changes require detailed commit messages"@]
            } else {
                Seq::empty()
            };
            (e1 + e2, Seq::empty())
        },
        Environment::Staging => (
            Seq::empty(),
            if change.change_type == ChangeType::Delete {
                seq!["Deleting files in staging environment"@]
            } else {
                Seq::empty()
            },
        ),
        Environment::Development => (Seq::empty(), Seq::empty()),
    }
}

/// The views of a list of strings.
pub open spec fn texts(v: Seq<String>) -> Seq<Seq<char>> {
    v.map_values(|s: String| s@)
}

/// The byte length that `str::len` reports for a text: the length of its UTF-8
/// encoding, as a `usize`.
pub open spec fn utf8_len(s: Seq<char>) -> nat {
    (vstd::utf8::encode_utf8(s).len() as usize) as nat
}

/// Validates changes and decides how they are synchronised.
#[derive(Debug)]
pub struct ConfigReconciler {
    git_client: GitClient,
    validation_rules: Vec<ValidationRule>,
    sync_policies: Vec<SyncPolicy>,
}

/// The first policy of an environment, if any.
pub open spec fn first_policy_index(policies: Seq<SyncPolicy>, env: Environment) -> Option<int>
    decreases policies.len(),
{
    if policies.len() == 0 {
        None
    } else if policies[0].environment == env {
        Some(0)
    } else {
        match first_policy_index(policies.drop_first(), env) {
            Some(i) => Some(i + 1),
            None => None,
        }
    }
}

fn push_concat3(v: &mut Vec<String>, a: &str, b: &str, c: &str, d: &str)
    ensures
        final(v)@.len() == old(v)@.len() + 1,
        final(v)@.drop_last() == old(v)@,
        final(v)@.last()@ == a@ + b@ + c@ + d@,
{
    let s = owned(a).concat(b).concat(c).concat(d);
    v.push(s);
    assert(v@.drop_last() =~= old(v)@);
}

impl ConfigReconciler {
    /// The validation rules, in order.
    pub closed spec fn rules(&self) -> Seq<ValidationRule> {
        self.validation_rules@
    }

    /// The sync policies, in order.
    pub closed spec fn policies(&self) -> Seq<SyncPolicy> {
        self.sync_policies@
    }

    pub fn new(git_client: GitClient, validation_rules: Vec<ValidationRule>, sync_policies: Vec<SyncPolicy>) -> (r: ConfigReconciler)
        ensures
            r.rules() == validation_rules@,
            r.policies() == sync_policies@,
    {
        ConfigReconciler { git_client, validation_rules, sync_policies }
    }

    /// Synchronises the configuration of `repo_url`; the simulated sync
    /// succeeds at commit `sync123`.
    pub fn sync_configuration(&self, repo_url: &str) -> (r: Result<SyncResult, String>)
        ensures
            r matches Ok(s) && s.status == SyncStatus::Success && s.commit_hash.0@ == "sync123"@
                && s.message@ == "Syncing configuration"@,
    {
        Ok(SyncResult {
            status: SyncStatus::Success,
            commit_hash: CommitHash(owned("sync123")),
            timestamp: crate::time::system_now(),
            message: owned("Syncing configuration"),
        })
    }

    /// Validates a change: the failed rules, an empty file list, and the
    /// environment's own rules give errors and warnings; the change is valid
    /// when there is no error.
    pub fn validate_change(&self, change: &ConfigChange) -> (r: Result<ValidationResult, String>)
        ensures
            r matches Ok(v) && {
                let (re, rw) = rule_reports(self.rules(), *change);
                let fe: Seq<Seq<char>> = if change.files@.len() == 0 {
                    seq!["No files changed"@]
                } else {
                    Seq::empty()
                };
                let (ee, ew) = environment_reports(*change, utf8_len(change.message@));
                &&& texts(v.errors@) == re + fe + ee
                &&& texts(v.warnings@) == rw + ew
                &&& v.valid == (v.errors@.len() == 0)
            },
    {
        let mut errors: Vec<String> = Vec::new();
        let mut warnings: Vec<String> = Vec::new();
        let mut i: usize = 0;
        proof {
            reveal_strlit("required_files");
            reveal_strlit("' failed: ");
            reveal_strlit("' warning: ");
            assert(self.rules().take(0) =~= Seq::<ValidationRule>::empty());
        }
        while i < self.validation_rules.len()
            invariant
                i <= self.rules().len(),
                self.rules() == self.validation_rules@,
                (texts(errors@), texts(warnings@)) == rule_reports(self.rules().take(i as int), *change),
            decreases self.rules().len() - i,
        {
            let rule = &self.validation_rules[i];
            proof {
                let t = self.rules().take(i as int + 1);
                assert(t.drop_last() =~= self.rules().take(i as int));
                assert(t.last() == *rule);
            }
            let ghost e0 = errors@;
            let ghost w0 = warnings@;
            if rule.enabled {
                match rule.severity {
                    RuleSeverity::Error => {
                        let fails = crate::text::str_eq(rule.name.as_str(), "required_files")
                            && change.files.len() == 0;
                        if fails {
                            push_concat3(&mut errors, "Rule '", rule.name.as_str(), "' failed: ", rule.description.as_str());
                            assert(texts(errors@) =~= texts(e0).push(errors@.last()@));
                        }
                    },
                    RuleSeverity::Warning => {
                        push_concat3(&mut warnings, "Rule '", rule.name.as_str(), "' warning: ", rule.description.as_str());
                        assert(texts(warnings@) =~= texts(w0).push(warnings@.last()@));
                    },
                    RuleSeverity::Info => {},
                }
            }
            i = i + 1;
        }
        proof {
            assert(self.rules().take(self.rules().len() as int) =~= self.rules());
        }
        let ghost after_rules = errors@;
        if change.files.len() == 0 {
            errors.push(owned("No files changed"));
        }
        proof {
            let fe: Seq<Seq<char>> = if change.files@.len() == 0 { seq!["No files changed"@] } else { Seq::empty() };
            assert(texts(errors@) =~= texts(after_rules) + fe);
        }
        let env = self.validate_environment_rules(change, &mut errors, &mut warnings);
        let valid = errors.len() == 0;
        Ok(ValidationResult { valid, errors, warnings, timestamp: crate::time::system_now() })
    }

    /// Adds the errors and warnings of the change's environment.
    pub fn validate_environment_rules(&self, change: &ConfigChange, errors: &mut Vec<String>, warnings: &mut Vec<String>) -> (r: Result<(), String>)
        ensures
            r is Ok,
            texts(final(errors)@) == texts(old(errors)@) + environment_reports(*change, utf8_len(change.message@)).0,
            texts(final(warnings)@) == texts(old(warnings)@) + environment_reports(*change, utf8_len(change.message@)).1,
    {
        let ghost e0 = errors@;
        let ghost w0 = warnings@;
        match change.target_environment {
            Environment::Production => {
                if change.change_type == ChangeType::Delete {
                    errors.push(owned("Production environment does not allow deletions"));
                }
                let ghost e1 = errors@;
                if change.message.as_str().len() < 10 {
                    errors.push(owned("Production changes require detailed commit messages"));
                }
                proof {
                    let (ee, ew) = environment_reports(*change, utf8_len(change.message@));
                    assert(texts(errors@) =~= texts(e0) + ee);
                    assert(texts(warnings@) =~= texts(w0) + ew);
                }
            },
            Environment::Staging => {
                if change.change_type == ChangeType::Delete {
                    warnings.push(owned("Deleting files in staging environment"));
                }
                proof {
                    let (ee, ew) = environment_reports(*change, utf8_len(change.message@));
                    assert(texts(errors@) =~= texts(e0) + ee);
                    assert(texts(warnings@) =~= texts(w0) + ew);
                }
            },
            Environment::Development => {
                proof {
                    assert(texts(errors@) =~= texts(e0) + Seq::<Seq<char>>::empty());
                    assert(texts(warnings@) =~= texts(w0) + Seq::<Seq<char>>::empty());
                }
            },
        }
        Ok(())
    }

    /// Applies a change; the deployment is simulated, so this succeeds.
    pub fn apply_changes(&self, change: &ConfigChange) -> (r: Result<(), String>)
        ensures
            r is Ok,
    {
        Ok(())
    }

    /// Rolls a change back; simulated, so this succeeds.
    pub fn rollback_changes(&self, change_id: uuid::Uuid) -> (r: Result<(), String>)
        ensures
            r is Ok,
    {
        Ok(())
    }

    /// The first sync policy of `environment`, if any.
    pub fn get_sync_policy(&self, environment: &Environment) -> (r: Option<&SyncPolicy>)
        ensures
            match first_policy_index(self.policies(), *environment) {
                Some(i) => r == Some(&self.policies()[i]),
                None => r is None,
            },
    {
        let mut i: usize = 0;
        proof {
            assert(self.policies().skip(0) =~= self.policies());
        }
        while i < self.sync_policies.len()
            invariant
                i <= self.policies().len(),
                self.policies() == self.sync_policies@,
                first_policy_index(self.policies(), *environment) == (match first_policy_index(self.policies().skip(i as int), *environment) {
                    Some(j) => Some(j + i),
                    None => None::<int>,
                }),
            decreases self.policies().len() - i,
        {
            if self.sync_policies[i].environment == *environment {
                assert(self.policies().skip(i as int)[0] == self.policies()[i as int]);
                return Some(&self.sync_policies[i]);
            }
            assert(self.policies().skip(i as int).drop_first() =~= self.policies().skip(i as int + 1));
            i = i + 1;
        }
        None
    }
}

fn rule(name: &str, description: &str, severity: RuleSeverity) -> (r: ValidationRule)
    ensures
        r.name@ == name@,
        r.description@ == description@,
        r.severity == severity,
        r.enabled,
{
    ValidationRule { name: owned(name), description: owned(description), severity, enabled: true }
}

/// The default validation rules: required files and syntax (errors),
/// environment match and resource limits (warnings), all enabled.
pub fn default_validation_rules() -> (v: Vec<ValidationRule>)
    ensures
        v@.len() == 4,
        v@[0].name@ == "required_files"@ && v@[0].severity == RuleSeverity::Error,
        v@[1].name@ == "syntax_check"@ && v@[1].severity == RuleSeverity::Error,
        v@[2].name@ == "environment_match"@ && v@[2].severity == RuleSeverity::Warning,
        v@[3].name@ == "resource_limits"@ && v@[3].severity == RuleSeverity::Warning,
        forall|i: int| 0 <= i < 4 ==> (#[trigger] v@[i]).enabled,
        v@[0].description@ == "Check for required configuration files"@,
        v@[1].description@ == "Validate YAML/JSON syntax"@,
        v@[2].description@ == "Ensure environment-specific configs are correct"@,
        v@[3].description@ == "Check resource limits are within bounds"@,
{
    let mut v: Vec<ValidationRule> = Vec::new();
    v.push(rule("required_files", "Check for required configuration files", RuleSeverity::Error));
    v.push(rule("syntax_check", "Validate YAML/JSON syntax", RuleSeverity::Error));
    v.push(rule("environment_match", "Ensure environment-specific configs are correct", RuleSeverity::Warning));
    v.push(rule("resource_limits", "Check resource limits are within bounds", RuleSeverity::Warning));
    v
}

/// The default sync policies: development syncs automatically from `develop`
/// and `feature`; staging (`staging`) and production (`main`, `release`) need
/// approval.
pub fn default_sync_policies() -> (v: Vec<SyncPolicy>)
    ensures
        v@.len() == 3,
        v@[0].name@ == "development_policy"@ && v@[0].environment == Environment::Development
            && v@[0].auto_sync && !v@[0].require_approval && v@[0].allowed_branches@.len() == 2
            && v@[0].allowed_branches@[0].0@ == "develop"@ && v@[0].allowed_branches@[1].0@ == "feature"@,
        v@[1].name@ == "staging_policy"@ && v@[1].environment == Environment::Staging
            && !v@[1].auto_sync && v@[1].require_approval && v@[1].allowed_branches@.len() == 1
            && v@[1].allowed_branches@[0].0@ == "staging"@,
        v@[2].name@ == "production_policy"@ && v@[2].environment == Environment::Production
            && !v@[2].auto_sync && v@[2].require_approval && v@[2].allowed_branches@.len() == 2
            && v@[2].allowed_branches@[0].0@ == "main"@ && v@[2].allowed_branches@[1].0@ == "release"@,
{
    let mut v: Vec<SyncPolicy> = Vec::new();
    let mut b0: Vec<BranchName> = Vec::new();
    b0.push(BranchName(owned("develop")));
    b0.push(BranchName(owned("feature")));
    v.push(SyncPolicy {
        name: owned("development_policy"),
        environment: Environment::Development,
        auto_sync: true,
        require_approval: false,
        allowed_branches: b0,
    });
    let mut b1: Vec<BranchName> = Vec::new();
    b1.push(BranchName(owned("staging")));
    v.push(SyncPolicy {
        name: owned("staging_policy"),
        environment: Environment::Staging,
        auto_sync: false,
        require_approval: true,
        allowed_branches: b1,
    });
    let mut b2: Vec<BranchName> = Vec::new();
    b2.push(BranchName(owned("main")));
    b2.push(BranchName(owned("release")));
    v.push(SyncPolicy {
        name: owned("production_policy"),
        environment: Environment::Production,
        auto_sync: false,
        require_approval: true,
        allowed_branches: b2,
    });
    v
}

/// An id used as a key: keys compare by the id's number.
#[derive(Debug, Clone, Copy)]
pub struct ChangeKey(pub uuid::Uuid);

impl View for ChangeKey {
    type V = u128;

    open spec fn view(&self) -> u128 {
        uuid_bits(self.0)
    }
}

/// Entries in strictly ascending order of their ids' numbers.
pub open spec fn ascending_keys<V>(s: Seq<(ChangeKey, V)>) -> bool {
    forall|i: int, j: int| 0 <= i < j < s.len() ==> s[i].0@ < s[j].0@
}

/// The text `format!("{:?}", v)` gives for a list of strings.
pub uninterp spec fn debug_list_text(v: Seq<Seq<char>>) -> Seq<char>;

/// The debug text of a list of strings (`format!("{:?}", v)`).
#[verifier::external_body]
fn debug_list(v: &Vec<String>) -> (r: String)
    ensures
        r@ == debug_list_text(texts(v@)),
{
    format!("{:?}", v)
}

/// Puts `x` under `key` in an ascending list, replacing the value there.
fn put_sorted<V>(v: &mut Vec<(ChangeKey, V)>, key: ChangeKey, x: V)
    requires
        ascending_keys(old(v)@),
    ensures
        ascending_keys(final(v)@),
        assoc_map(final(v)@) == assoc_map(old(v)@).insert(key@, x),
{
    let b = uuid_as_u128(&key.0);
    let mut i: usize = 0;
    while i < v.len()
        invariant
            i <= v@.len(),
            v@ == old(v)@,
            b == key@,
            forall|k: int| 0 <= k < i ==> v@[k].0@ < b,
        ensures
            i <= v@.len(),
            v@ == old(v)@,
            forall|k: int| 0 <= k < i ==> v@[k].0@ < b,
            i < v@.len() ==> v@[i as int].0@ >= b,
        decreases v@.len() - i,
    {
        let here = uuid_as_u128(&v[i].0.0);
        if here >= b {
            break;
        }
        i = i + 1;
    }
    proof {
        assert(keys_distinct(v@)) by {
            assert forall|a: int, c: int| 0 <= a < v@.len() && 0 <= c < v@.len() && a != c implies v@[a].0@ != v@[c].0@ by {
                if a < c {
                    assert(v@[a].0@ < v@[c].0@);
                } else {
                    assert(v@[c].0@ < v@[a].0@);
                }
            }
        }
    }
    if i < v.len() && uuid_as_u128(&v[i].0.0) == b {
        proof {
            lemma_assoc_update(v@, i as int, key, x);
        }
        v.set(i, (key, x));
        proof {
            assert forall|a: int, c: int| 0 <= a < c < v@.len() implies v@[a].0@ < v@[c].0@ by {
                assert(v@[a].0@ == old(v)@[a].0@ && v@[c].0@ == old(v)@[c].0@);
            }
        }
    } else {
        proof {
            assert forall|k: int| 0 <= k < v@.len() implies v@[k].0@ != key@ by {
                if k < i {
                } else {
                    assert(v@[i as int].0@ > b);
                    if k > i {
                        assert(v@[i as int].0@ < v@[k].0@);
                    }
                }
            }
            lemma_assoc_absent(v@, key@);
            lemma_assoc_insert(v@, i as int, key, x);
        }
        let ghost before = v@;
        v.insert(i, (key, x));
        proof {
            assert forall|a: int, c: int| 0 <= a < c < v@.len() implies v@[a].0@ < v@[c].0@ by {
                if c < i {
                    assert(v@[a] == before[a] && v@[c] == before[c]);
                } else if c == i {
                    assert(v@[a] == before[a]);
                } else if a < i {
                    assert(v@[a] == before[a] && v@[c] == before[c - 1]);
                    assert(before[i as int].0@ > b || i == before.len());
                    if (i as int) < c - 1 {
                        assert(before[i as int].0@ < before[c - 1].0@);
                    }
                } else if a == i {
                    assert(v@[c] == before[c - 1]);
                    if (i as int) < c - 1 {
                        assert(before[i as int].0@ < before[c - 1].0@);
                    }
                } else {
                    assert(v@[a] == before[a - 1] && v@[c] == before[c - 1]);
                }
            }
        }
    }
}

/// The position of `key` in an ascending list, if present.
fn find_sorted<V>(v: &Vec<(ChangeKey, V)>, key: &ChangeKey) -> (r: Option<usize>)
    requires
        ascending_keys(v@),
    ensures
        keys_distinct(v@),
        match r {
            Some(i) => i < v@.len() && v@[i as int].0@ == key@ && v@[i as int].0.0 == key.0,
            None => !assoc_map(v@).contains_key(key@),
        },
{
    proof {
        assert forall|a: int, c: int| 0 <= a < v@.len() && 0 <= c < v@.len() && a != c implies v@[a].0@ != v@[c].0@ by {
            if a < c {
                assert(v@[a].0@ < v@[c].0@);
            } else {
                assert(v@[c].0@ < v@[a].0@);
            }
        }
    }
    let b = uuid_as_u128(&key.0);
    let mut i: usize = 0;
    while i < v.len()
        invariant
            i <= v@.len(),
            b == key@,
            keys_distinct(v@),
            forall|k: int| 0 <= k < i ==> v@[k].0@ != b,
        decreases v@.len() - i,
    {
        let here = uuid_as_u128(&v[i].0.0);
        if here == b {
            return Some(i);
        }
        i = i + 1;
    }
    proof {
        lemma_assoc_absent(v@, key@);
    }
    None
}

/// The message of a lookup of an unknown change.
pub open spec fn change_not_found_text() -> Seq<char> {
    "Configuration change not found"@
}

/// The outcome of applying a pending change: the error, or `Ok` when it is
/// applied and leaves the queue.
pub open spec fn apply_outcome(reconciler: &ConfigReconciler, change: ConfigChange) -> Result<(), Seq<char>> {
    let (re, rw) = rule_reports(reconciler.rules(), change);
    let fe: Seq<Seq<char>> = if change.files@.len() == 0 { seq!["No files changed"@] } else { Seq::empty() };
    let (ee, ew) = environment_reports(change, utf8_len(change.message@));
    let errors = re + fe + ee;
    if errors.len() > 0 {
        Err("Configuration change validation failed: "@ + debug_list_text(errors))
    } else {
        match first_policy_index(reconciler.policies(), change.target_environment) {
            Some(i) => if reconciler.policies()[i].require_approval {
                Err("Manual approval required"@)
            } else {
                Ok(())
            },
            None => Ok(()),
        }
    }
}

/// The engine: a reconciler, the pending changes and the sync history, both
/// by id.
#[derive(Debug)]
pub struct GitOpsEngine {
    git_client: GitClient,
    reconciler: ConfigReconciler,
    sync_history: Vec<(ChangeKey, SyncResult)>,
    pending_changes: Vec<(ChangeKey, ConfigChange)>,
}

impl GitOpsEngine {
    #[verifier::type_invariant]
    closed spec fn inv(self) -> bool {
        ascending_keys(self.sync_history@) && ascending_keys(self.pending_changes@)
    }

    /// The pending changes, by id number.
    pub closed spec fn pending(&self) -> Map<u128, ConfigChange> {
        assoc_map(self.pending_changes@)
    }

    /// The recorded syncs, by id number.
    pub closed spec fn history(&self) -> Map<u128, SyncResult> {
        assoc_map(self.sync_history@)
    }

    /// The reconciler.
    pub closed spec fn reconciler_spec(&self) -> &ConfigReconciler {
        &self.reconciler
    }

    /// The git client.
    pub closed spec fn git_client_spec(&self) -> &GitClient {
        &self.git_client
    }

    /// An engine with no pending changes and no recorded syncs.
    pub fn new(git_client: GitClient, reconciler: ConfigReconciler) -> (e: GitOpsEngine)
        ensures
            e.pending() == Map::<u128, ConfigChange>::empty(),
            e.history() == Map::<u128, SyncResult>::empty(),
            *e.reconciler_spec() == reconciler,
            *e.git_client_spec() == git_client,
    {
        let e = GitOpsEngine { git_client, reconciler, sync_history: Vec::new(), pending_changes: Vec::new() };
        proof {
            lemma_assoc_empty(e.pending_changes@);
            lemma_assoc_empty(e.sync_history@);
        }
        e
    }

    /// Synchronises from `repo_url` and records the result under a fresh id.
    pub fn sync_configuration(&mut self, repo_url: &str) -> (r: Result<SyncResult, String>)
        ensures
            r matches Ok(s) && {
                &&& s.status == SyncStatus::Success
                &&& s.commit_hash.0@ == "sync123"@
                &&& s.message@ == "Syncing configuration"@
                &&& exists|id: u128| #[trigger] final(self).history().contains_key(id)
                    && final(self).history() == old(self).history().insert(id, final(self).history()[id])
                    && final(self).history()[id].status == s.status
                    && final(self).history()[id].commit_hash.0@ == s.commit_hash.0@
                    && final(self).history()[id].message@ == s.message@
                    && final(self).history()[id].timestamp == s.timestamp
            },
            final(self).pending() == old(self).pending(),
    {
        proof {
            use_type_invariant(&*self);
        }
        let result = match self.reconciler.sync_configuration(repo_url) {
            Ok(s) => s,
            Err(e) => return Err(e),
        };
        let key = ChangeKey(new_uuid());
        let mut history: Vec<(ChangeKey, SyncResult)> = Vec::new();
        std::mem::swap(&mut history, &mut self.sync_history);
        let recorded = SyncResult {
            status: result.status,
            commit_hash: CommitHash(result.commit_hash.0.clone()),
            timestamp: result.timestamp,
            message: result.message.clone(),
        };
        put_sorted(&mut history, key, recorded);
        self.sync_history = history;
        proof {
            assert(self.history().contains_key(key@));
        }
        Ok(result)
    }

    /// Queues a new change under a fresh id and returns the id.
    pub fn create_change(
        &mut self,
        author: &str,
        message: &str,
        files: Vec<String>,
        change_type: ChangeType,
        target_environment: Environment,
    ) -> (r: Result<uuid::Uuid, String>)
        ensures
            r matches Ok(id) && {
                &&& final(self).pending().contains_key(uuid_bits(id))
                &&& final(self).pending() == old(self).pending().insert(uuid_bits(id), final(self).pending()[uuid_bits(id)])
                &&& final(self).pending()[uuid_bits(id)].id == id
                &&& final(self).pending()[uuid_bits(id)].author@ == author@
                &&& final(self).pending()[uuid_bits(id)].message@ == message@
                &&& final(self).pending()[uuid_bits(id)].files@ == files@
                &&& final(self).pending()[uuid_bits(id)].change_type == change_type
                &&& final(self).pending()[uuid_bits(id)].target_environment == target_environment
            },
            final(self).history() == old(self).history(),
            final(self).reconciler_spec() == old(self).reconciler_spec(),
    {
        proof {
            use_type_invariant(&*self);
        }
        let id = new_uuid();
        let change = ConfigChange {
            id,
            timestamp: crate::time::system_now(),
            author: owned(author),
            message: owned(message),
            files,
            change_type,
            target_environment,
        };
        let mut pending: Vec<(ChangeKey, ConfigChange)> = Vec::new();
        std::mem::swap(&mut pending, &mut self.pending_changes);
        put_sorted(&mut pending, ChangeKey(id), change);
        self.pending_changes = pending;
        Ok(id)
    }

    /// The pending change with id `change_id`, if any.
    pub fn get_change(&self, change_id: uuid::Uuid) -> (r: Option<&ConfigChange>)
        ensures
            match r {
                Some(c) => self.pending().contains_key(uuid_bits(change_id)) && *c == self.pending()[uuid_bits(change_id)],
                None => !self.pending().contains_key(uuid_bits(change_id)),
            },
    {
        proof {
            use_type_invariant(self);
        }
        match find_sorted(&self.pending_changes, &ChangeKey(change_id)) {
            Some(i) => {
                proof {
                    lemma_assoc_lookup(self.pending_changes@, i as int);
                }
                Some(&self.pending_changes[i].1)
            },
            None => None,
        }
    }

    /// Validates the pending change `change_id`.
    pub fn validate_change(&self, change_id: uuid::Uuid) -> (r: Result<ValidationResult, String>)
        ensures
            r is Ok <==> self.pending().contains_key(uuid_bits(change_id)),
            r matches Err(m) ==> m@ == change_not_found_text(),
            r matches Ok(v) ==> {
                let c = self.pending()[uuid_bits(change_id)];
                let (re, rw) = rule_reports(self.reconciler_spec().rules(), c);
                let fe: Seq<Seq<char>> = if c.files@.len() == 0 { seq!["No files changed"@] } else { Seq::empty() };
                let (ee, ew) = environment_reports(c, utf8_len(c.message@));
                &&& texts(v.errors@) == re + fe + ee
                &&& texts(v.warnings@) == rw + ew
                &&& v.valid == (v.errors@.len() == 0)
            },
    {
        match self.get_change(change_id) {
            Some(c) => self.reconciler.validate_change(c),
            None => Err(owned("Configuration change not found")),
        }
    }

    /// Applies the pending change `change_id`: a change that fails validation,
    /// or whose environment's policy requires approval, is refused and stays
    /// pending; an applied change leaves the queue.
    pub fn apply_change(&mut self, change_id: uuid::Uuid) -> (r: Result<(), String>)
        ensures
            !old(self).pending().contains_key(uuid_bits(change_id)) ==> (r matches Err(m) && m@ == change_not_found_text()
                && final(self).pending() == old(self).pending()),
            old(self).pending().contains_key(uuid_bits(change_id)) ==> match apply_outcome(
                old(self).reconciler_spec(),
                old(self).pending()[uuid_bits(change_id)],
            ) {
                Ok(_) => r is Ok && final(self).pending() == old(self).pending().remove(uuid_bits(change_id)),
                Err(msg) => r matches Err(m) && m@ == msg && final(self).pending() == old(self).pending(),
            },
            final(self).history() == old(self).history(),
            final(self).reconciler_spec() == old(self).reconciler_spec(),
    {
        proof {
            use_type_invariant(&*self);
            reveal_strlit("Manual approval required");
        }
        let i = match find_sorted(&self.pending_changes, &ChangeKey(change_id)) {
            Some(i) => i,
            None => return Err(owned("Configuration change not found")),
        };
        proof {
            lemma_assoc_lookup(self.pending_changes@, i as int);
        }
        let validation = match self.reconciler.validate_change(&self.pending_changes[i].1) {
            Ok(v) => v,
            Err(e) => return Err(e),
        };
        if !validation.valid {
            return Err(owned("Configuration change validation failed: ").concat(debug_list(&validation.errors).as_str()));
        }
        match self.reconciler.get_sync_policy(&self.pending_changes[i].1.target_environment) {
            Some(policy) => {
                if policy.require_approval {
                    return Err(owned("Manual approval required"));
                }
            },
            None => {},
        }
        let applied = self.reconciler.apply_changes(&self.pending_changes[i].1);
        let mut pending: Vec<(ChangeKey, ConfigChange)> = Vec::new();
        std::mem::swap(&mut pending, &mut self.pending_changes);
        proof {
            lemma_assoc_remove(pending@, i as int);
        }
        let ghost before = pending@;
        pending.remove(i);
        proof {
            assert forall|a: int, c: int| 0 <= a < c < pending@.len() implies pending@[a].0@ < pending@[c].0@ by {
                let a2 = if a < i { a } else { a + 1 };
                let c2 = if c < i { c } else { c + 1 };
                assert(pending@[a] == before[a2] && pending@[c] == before[c2]);
            }
        }
        self.pending_changes = pending;
        Ok(())
    }

    /// Rolls back the change `change_id` and drops it from the queue.
    pub fn rollback_change(&mut self, change_id: uuid::Uuid) -> (r: Result<(), String>)
        ensures
            r is Ok,
            final(self).pending() == old(self).pending().remove(uuid_bits(change_id)),
            final(self).history() == old(self).history(),
    {
        proof {
            use_type_invariant(&*self);
        }
        let rolled = self.reconciler.rollback_changes(change_id);
        match find_sorted(&self.pending_changes, &ChangeKey(change_id)) {
            Some(i) => {
                let mut pending: Vec<(ChangeKey, ConfigChange)> = Vec::new();
                std::mem::swap(&mut pending, &mut self.pending_changes);
                proof {
                    lemma_assoc_remove(pending@, i as int);
                }
                let ghost before = pending@;
                pending.remove(i);
                proof {
                    assert forall|a: int, c: int| 0 <= a < c < pending@.len() implies pending@[a].0@ < pending@[c].0@ by {
                        let a2 = if a < i { a } else { a + 1 };
                        let c2 = if c < i { c } else { c + 1 };
                        assert(pending@[a] == before[a2] && pending@[c] == before[c2]);
                    }
                }
                self.pending_changes = pending;
            },
            None => {
                assert(self.pending() =~= self.pending().remove(uuid_bits(change_id)));
            },
        }
        Ok(())
    }

    /// The recorded syncs, in ascending order of id.
    pub fn get_sync_history(&self) -> (r: &Vec<(ChangeKey, SyncResult)>)
        ensures
            assoc_map(r@) == self.history(),
            ascending_keys(r@),
    {
        proof {
            use_type_invariant(self);
        }
        &self.sync_history
    }

    /// The pending changes, in ascending order of id.
    pub fn get_pending_changes(&self) -> (r: &Vec<(ChangeKey, ConfigChange)>)
        ensures
            assoc_map(r@) == self.pending(),
            ascending_keys(r@),
    {
        proof {
            use_type_invariant(self);
        }
        &self.pending_changes
    }

    /// The git client.
    pub fn get_git_client(&self) -> (r: &GitClient)
        ensures
            r == self.git_client_spec(),
    {
        &self.git_client
    }

    /// The reconciler.
    pub fn get_reconciler(&self) -> (r: &ConfigReconciler)
        ensures
            r == self.reconciler_spec(),
    {
        &self.reconciler
    }
}

/// A deletion aimed at production is refused, whatever its commit message:
/// the environment's rules report "Production environment does not allow
/// deletions" first, so the change is invalid and is never applied.
pub proof fn law_production_rejects_deletions(reconciler: ConfigReconciler, change: ConfigChange, message_len: nat)
    requires
        change.target_environment == Environment::Production,
        change.change_type == ChangeType::Delete,
    ensures
        environment_reports(change, message_len).0.len() >= 1,
        environment_reports(change, message_len).0[0] == "Production environment does not allow deletions"@,
        apply_outcome(&reconciler, change) is Err,
{
    let (re, rw) = rule_reports(reconciler.rules(), change);
    let fe: Seq<Seq<char>> = if change.files@.len() == 0 { seq!["No files changed"@] } else { Seq::empty() };
    let (ee, ew) = environment_reports(change, utf8_len(change.message@));
    assert(ee.len() >= 1);
    assert((re + fe + ee).len() >= 1);
}

/// The environment's own rules: production wants a commit message of at least
/// ten bytes (an error otherwise) and gives no warning; staging only warns, and
/// only of a deletion; development reports nothing.
pub proof fn law_environment_rules(change: ConfigChange, message_len: nat)
    ensures
        change.target_environment == Environment::Production ==> {
            &&& environment_reports(change, message_len).0.contains("Production changes require detailed commit messages"@) <==> message_len < 10
            &&& environment_reports(change, message_len).1.len() == 0
            &&& (change.change_type != ChangeType::Delete && message_len >= 10) ==> environment_reports(change, message_len).0.len() == 0
        },
        change.target_environment == Environment::Staging ==> {
            &&& environment_reports(change, message_len).0.len() == 0
            &&& (environment_reports(change, message_len).1.len() > 0 <==> change.change_type == ChangeType::Delete)
        },
        change.target_environment == Environment::Development ==> environment_reports(change, message_len) == (Seq::<Seq<char>>::empty(), Seq::<Seq<char>>::empty()),
{
    reveal_strlit("Production changes require detailed commit messages");
    reveal_strlit("Production environment does not allow deletions");
    let d = "Production environment does not allow deletions"@;
    let m = "Production changes require detailed commit messages"@;
    assert(d.len() != m.len());
    if change.target_environment == Environment::Production {
        let e = environment_reports(change, message_len).0;
        if message_len < 10 {
            assert(e[e.len() - 1] == m);
        } else {
            assert forall|i: int| 0 <= i < e.len() implies e[i] != m by {
                assert(e[i] == d);
            }
        }
    }
}

} // verus!
