//! The built-in catalogue of dangerous command patterns.

use vstd::prelude::*;
use vstd::string::*;
use crate::matcher::{compile, regex_compiles, regex_error_text};
use crate::models::{RiskLevel, ShellType};
use crate::safety::{applies_to, pattern_views, DangerPattern, RuleView};
use crate::text::views;

verus! {

/// A catalogue entry.
pub open spec fn rule(pattern: &str, risk: RiskLevel, description: &str, scope: Option<ShellType>) -> RuleView {
    RuleView { source: pattern@, risk, description: description@, scope }
}

/// The built-in catalogue: destructive file-system and disk operations,
/// fork bombs, privilege escalation, download-and-execute chains, network
/// backdoors, service and package operations, and their Windows forms, at
/// Critical, High and Moderate risk; and, at Safe risk, commands that only
/// read documentation or locate a command.
pub open spec fn builtin_table() -> Seq<RuleView> {
    seq![
        rule(r"rm\s+(-[rfRF]*\s+)*(/|~|\$HOME|/\*|~/\*)", RiskLevel::Critical, "Recursive deletion of root or home directory", None),
        rule(r"rm\s+-rf\s+/", RiskLevel::Critical, "Force recursive deletion from root", None),
        rule(r"rm\s+-rf\s+--no-preserve-root\s+/", RiskLevel::Critical, "Bypass root protection and delete everything", None),
        rule(r"dd\s+.*if=/dev/(zero|random|urandom).*of=/dev/(sd|hd|nvme)", RiskLevel::Critical, "Overwrite disk with random data", None),
        rule(r"mkfs\.\w+\s+/dev/(sd|hd|nvme)", RiskLevel::Critical, "Format disk destroying all data", None),
        rule(r":\(\)\s*\{\s*:\s*\|\s*:\s*&\s*\}\s*;\s*:", RiskLevel::Critical, "Fork bomb - exponential process creation", Some(ShellType::Bash)),
        rule(r"\|\s*&\s*\|", RiskLevel::Critical, "Potential fork bomb pattern", None),
        rule(r"(rm|mv|chmod|chown)\s+.*(/bin|/sbin|/usr/bin|/usr/sbin|/etc)", RiskLevel::High, "Modification of critical system directories", None),
        rule(r"chmod\s+777\s+/", RiskLevel::High, "Recursive permission change from root", None),
        rule(r"sudo\s+su\s*$", RiskLevel::High, "Switch to root user without specific command", None),
        rule(r"sudo\s+.*chmod\s+u\+s", RiskLevel::High, "Adding setuid bit with elevated privileges", None),
        rule(r"(curl|wget)\s+.*\|\s*(bash|sh|zsh|fish)", RiskLevel::High, "Download and execute remote script without inspection", None),
        rule(r"(curl|wget)\s+.*\|\s*sudo\s+(bash|sh)", RiskLevel::Critical, "Download and execute remote script with root privileges", None),
        rule(r"(apt|yum|dnf)\s+remove\s+.*--force", RiskLevel::Moderate, "Force removal of packages bypassing dependencies", None),
        rule(r"pip\s+install\s+.*--break-system-packages", RiskLevel::Moderate, "Install Python packages bypassing system protections", None),
        rule(r"kill\s+-9\s+(-1|1)\s*$", RiskLevel::Moderate, "Force kill all processes or init", None),
        rule(r"killall\s+-9\s+\w+", RiskLevel::Moderate, "Force kill all processes by name", None),
        rule(r">\s*/dev/sd[a-z]", RiskLevel::Critical, "Direct write to disk device", None),
        rule(r"shred\s+-[uvz]*\s+/dev/(sd|hd|nvme)", RiskLevel::Critical, "Securely delete disk device", None),
        rule(r"iptables\s+-F", RiskLevel::Moderate, "Flush all firewall rules", None),
        rule(r"ufw\s+disable", RiskLevel::Moderate, "Disable firewall", None),
        rule(r"sudo\s+(systemctl|service)\s+(restart|stop|disable)", RiskLevel::High, "Modify system services with elevated privileges", None),
        rule(r"sudo\s+rm\s", RiskLevel::High, "Delete files with elevated privileges", None),
        rule(r">\s*/etc/", RiskLevel::High, "Redirect output to system configuration file", None),
        rule(r"(echo|cat|printf)\s+.*>\s*/etc/", RiskLevel::High, "Write to system configuration directory", None),
        rule(r"rm\s+-r[f]*\s+[A-Z]:\\", RiskLevel::Critical, "Recursive deletion of Windows drive root", Some(ShellType::Bash)),
        rule(r"Remove-Item\s+-Recurse\s+-Force\s+[A-Z]:\\", RiskLevel::Critical, "Recursive deletion of Windows drive root", Some(ShellType::PowerShell)),
        rule(r"Remove-Item\s+.*-Force\s+-Recurse", RiskLevel::High, "Force recursive deletion in PowerShell", Some(ShellType::PowerShell)),
        rule(r"Set-ExecutionPolicy\s+Unrestricted", RiskLevel::High, "Disable PowerShell execution policy protection", Some(ShellType::PowerShell)),
        rule(r"export\s+PATH=", RiskLevel::Moderate, "Modify PATH environment variable", None),
        rule(r"alias\s+(rm|mv|cp)=", RiskLevel::Moderate, "Override critical command with alias", None),
        rule(r"nc\s+.*-[a-z]*l[a-z]*\s+.*-[a-z]*e", RiskLevel::Critical, "Netcat bind shell - creates network backdoor", None),
        rule(r"nc\s+-[a-z]*e\s+/bin/(ba)?sh", RiskLevel::Critical, "Netcat shell binding", None),
        rule(r"crontab\s+-r", RiskLevel::High, "Remove all cron jobs", None),
        rule(r"\(crontab\s+-l.*;\s*echo", RiskLevel::High, "Add malicious cron job", None),
        rule(r"python\s+-c\s+.*os\.system.*rm\s+-rf", RiskLevel::Critical, "Python executing recursive deletion", None),
        rule(r"(python|perl|ruby)\s+-[ec]\s+.*system\s*\(", RiskLevel::High, "Script language executing shell commands", None),
        rule(r"rm\s+[^-\s][^\s]*\.(txt|doc|pdf|xlsx|pptx|zip|tar|sql|bak)", RiskLevel::Moderate, "Deleting important file types", None),
        rule(r"rm\s+-r[f]*\s+[A-Z]:[/\\]", RiskLevel::Critical, "Recursive deletion of Windows drive root (with backslash)", None),
        rule(r"chmod\s+[+\-]x\s+", RiskLevel::Moderate, "Making files executable", None),
        rule(r"chmod\s+[0-7]{3,4}\s+", RiskLevel::Moderate, "Changing file permissions", None),
        rule(r"chown\s+[^\s]+\s+", RiskLevel::Moderate, "Changing file ownership", None),
        rule(r"pip\s+install\s+--user", RiskLevel::Moderate, "Installing Python packages in user directory", None),
        rule(r"del\s+/[fFsS]\s+", RiskLevel::Critical, "Windows delete with force/subdirectory flags", None),
        rule(r"del\s+.*C:[/\\]", RiskLevel::Critical, "Windows delete on C drive root", None),
        rule(r"format\s+[A-Z]:", RiskLevel::Critical, "Format disk drive", None),
        rule(r"docker\s+run\s+.*--privileged", RiskLevel::High, "Docker container with full host access", None),
        rule(r"ssh\s+[^\s]+@[^\s]+", RiskLevel::Moderate, "SSH connection to remote server", None),
        rule(r"scp\s+", RiskLevel::Moderate, "Secure copy to/from remote server", None),
        rule(r"kill\s+-9\s+\d+", RiskLevel::Moderate, "Force kill specific process by PID", None),
        rule(r"^\s*(man|which|whatis)\s+[\w.-]+\s*$", RiskLevel::Safe, "Reading documentation or locating a command", None),
    ]
}

/// The built-in catalogue of dangerous patterns.
#[verifier::rlimit(50)]
pub fn builtin_patterns() -> (r: Vec<DangerPattern>)
    ensures
        pattern_views(r@) == builtin_table(),
{
    let mut v: Vec<DangerPattern> = Vec::new();
    v.push(DangerPattern::new(r"rm\s+(-[rfRF]*\s+)*(/|~|\$HOME|/\*|~/\*)", RiskLevel::Critical, "Recursive deletion of root or home directory", None));
    v.push(DangerPattern::new(r"rm\s+-rf\s+/", RiskLevel::Critical, "Force recursive deletion from root", None));
    v.push(DangerPattern::new(r"rm\s+-rf\s+--no-preserve-root\s+/", RiskLevel::Critical, "Bypass root protection and delete everything", None));
    v.push(DangerPattern::new(r"dd\s+.*if=/dev/(zero|random|urandom).*of=/dev/(sd|hd|nvme)", RiskLevel::Critical, "Overwrite disk with random data", None));
    v.push(DangerPattern::new(r"mkfs\.\w+\s+/dev/(sd|hd|nvme)", RiskLevel::Critical, "Format disk destroying all data", None));
    v.push(DangerPattern::new(r":\(\)\s*\{\s*:\s*\|\s*:\s*&\s*\}\s*;\s*:", RiskLevel::Critical, "Fork bomb - exponential process creation", Some(ShellType::Bash)));
    v.push(DangerPattern::new(r"\|\s*&\s*\|", RiskLevel::Critical, "Potential fork bomb pattern", None));
    v.push(DangerPattern::new(r"(rm|mv|chmod|chown)\s+.*(/bin|/sbin|/usr/bin|/usr/sbin|/etc)", RiskLevel::High, "Modification of critical system directories", None));
    v.push(DangerPattern::new(r"chmod\s+777\s+/", RiskLevel::High, "Recursive permission change from root", None));
    v.push(DangerPattern::new(r"sudo\s+su\s*$", RiskLevel::High, "Switch to root user without specific command", None));
    v.push(DangerPattern::new(r"sudo\s+.*chmod\s+u\+s", RiskLevel::High, "Adding setuid bit with elevated privileges", None));
    v.push(DangerPattern::new(r"(curl|wget)\s+.*\|\s*(bash|sh|zsh|fish)", RiskLevel::High, "Download and execute remote script without inspection", None));
    v.push(DangerPattern::new(r"(curl|wget)\s+.*\|\s*sudo\s+(bash|sh)", RiskLevel::Critical, "Download and execute remote script with root privileges", None));
    v.push(DangerPattern::new(r"(apt|yum|dnf)\s+remove\s+.*--force", RiskLevel::Moderate, "Force removal of packages bypassing dependencies", None));
    v.push(DangerPattern::new(r"pip\s+install\s+.*--break-system-packages", RiskLevel::Moderate, "Install Python packages bypassing system protections", None));
    v.push(DangerPattern::new(r"kill\s+-9\s+(-1|1)\s*$", RiskLevel::Moderate, "Force kill all processes or init", None));
    v.push(DangerPattern::new(r"killall\s+-9\s+\w+", RiskLevel::Moderate, "Force kill all processes by name", None));
    v.push(DangerPattern::new(r">\s*/dev/sd[a-z]", RiskLevel::Critical, "Direct write to disk device", None));
    v.push(DangerPattern::new(r"shred\s+-[uvz]*\s+/dev/(sd|hd|nvme)", RiskLevel::Critical, "Securely delete disk device", None));
    v.push(DangerPattern::new(r"iptables\s+-F", RiskLevel::Moderate, "Flush all firewall rules", None));
    v.push(DangerPattern::new(r"ufw\s+disable", RiskLevel::Moderate, "Disable firewall", None));
    v.push(DangerPattern::new(r"sudo\s+(systemctl|service)\s+(restart|stop|disable)", RiskLevel::High, "Modify system services with elevated privileges", None));
    v.push(DangerPattern::new(r"sudo\s+rm\s", RiskLevel::High, "Delete files with elevated privileges", None));
    v.push(DangerPattern::new(r">\s*/etc/", RiskLevel::High, "Redirect output to system configuration file", None));
    v.push(DangerPattern::new(r"(echo|cat|printf)\s+.*>\s*/etc/", RiskLevel::High, "Write to system configuration directory", None));
    v.push(DangerPattern::new(r"rm\s+-r[f]*\s+[A-Z]:\\", RiskLevel::Critical, "Recursive deletion of Windows drive root", Some(ShellType::Bash)));
    v.push(DangerPattern::new(r"Remove-Item\s+-Recurse\s+-Force\s+[A-Z]:\\", RiskLevel::Critical, "Recursive deletion of Windows drive root", Some(ShellType::PowerShell)));
    v.push(DangerPattern::new(r"Remove-Item\s+.*-Force\s+-Recurse", RiskLevel::High, "Force recursive deletion in PowerShell", Some(ShellType::PowerShell)));
    v.push(DangerPattern::new(r"Set-ExecutionPolicy\s+Unrestricted", RiskLevel::High, "Disable PowerShell execution policy protection", Some(ShellType::PowerShell)));
    v.push(DangerPattern::new(r"export\s+PATH=", RiskLevel::Moderate, "Modify PATH environment variable", None));
    v.push(DangerPattern::new(r"alias\s+(rm|mv|cp)=", RiskLevel::Moderate, "Override critical command with alias", None));
    v.push(DangerPattern::new(r"nc\s+.*-[a-z]*l[a-z]*\s+.*-[a-z]*e", RiskLevel::Critical, "Netcat bind shell - creates network backdoor", None));
    v.push(DangerPattern::new(r"nc\s+-[a-z]*e\s+/bin/(ba)?sh", RiskLevel::Critical, "Netcat shell binding", None));
    v.push(DangerPattern::new(r"crontab\s+-r", RiskLevel::High, "Remove all cron jobs", None));
    v.push(DangerPattern::new(r"\(crontab\s+-l.*;\s*echo", RiskLevel::High, "Add malicious cron job", None));
    v.push(DangerPattern::new(r"python\s+-c\s+.*os\.system.*rm\s+-rf", RiskLevel::Critical, "Python executing recursive deletion", None));
    v.push(DangerPattern::new(r"(python|perl|ruby)\s+-[ec]\s+.*system\s*\(", RiskLevel::High, "Script language executing shell commands", None));
    v.push(DangerPattern::new(r"rm\s+[^-\s][^\s]*\.(txt|doc|pdf|xlsx|pptx|zip|tar|sql|bak)", RiskLevel::Moderate, "Deleting important file types", None));
    v.push(DangerPattern::new(r"rm\s+-r[f]*\s+[A-Z]:[/\\]", RiskLevel::Critical, "Recursive deletion of Windows drive root (with backslash)", None));
    v.push(DangerPattern::new(r"chmod\s+[+\-]x\s+", RiskLevel::Moderate, "Making files executable", None));
    v.push(DangerPattern::new(r"chmod\s+[0-7]{3,4}\s+", RiskLevel::Moderate, "Changing file permissions", None));
    v.push(DangerPattern::new(r"chown\s+[^\s]+\s+", RiskLevel::Moderate, "Changing file ownership", None));
    v.push(DangerPattern::new(r"pip\s+install\s+--user", RiskLevel::Moderate, "Installing Python packages in user directory", None));
    v.push(DangerPattern::new(r"del\s+/[fFsS]\s+", RiskLevel::Critical, "Windows delete with force/subdirectory flags", None));
    v.push(DangerPattern::new(r"del\s+.*C:[/\\]", RiskLevel::Critical, "Windows delete on C drive root", None));
    v.push(DangerPattern::new(r"format\s+[A-Z]:", RiskLevel::Critical, "Format disk drive", None));
    v.push(DangerPattern::new(r"docker\s+run\s+.*--privileged", RiskLevel::High, "Docker container with full host access", None));
    v.push(DangerPattern::new(r"ssh\s+[^\s]+@[^\s]+", RiskLevel::Moderate, "SSH connection to remote server", None));
    v.push(DangerPattern::new(r"scp\s+", RiskLevel::Moderate, "Secure copy to/from remote server", None));
    v.push(DangerPattern::new(r"kill\s+-9\s+\d+", RiskLevel::Moderate, "Force kill specific process by PID", None));
    v.push(DangerPattern::new(r"^\s*(man|which|whatis)\s+[\w.-]+\s*$", RiskLevel::Safe, "Reading documentation or locating a command", None));
    assert(pattern_views(v@) =~= builtin_table());
    v
}

/// The catalogue entries that fire for `shell`.
pub open spec fn rules_for_shell(rules: Seq<RuleView>, shell: ShellType) -> Seq<RuleView> {
    rules.filter(|r: RuleView| applies_to(r.scope, shell))
}

/// The catalogue entries at `min_risk` or above.
pub open spec fn rules_at_least(rules: Seq<RuleView>, min_risk: RiskLevel) -> Seq<RuleView> {
    rules.filter(|r: RuleView| r.risk.spec_rank() >= min_risk.spec_rank())
}

/// Get built-in patterns filtered by shell type: the unscoped ones and those
/// scoped to `shell`, in catalogue order.
pub fn get_patterns_for_shell(shell: ShellType) -> (r: Vec<DangerPattern>)
    ensures
        pattern_views(r@) == rules_for_shell(builtin_table(), shell),
{
    let all = builtin_patterns();
    let mut out: Vec<DangerPattern> = Vec::new();
    let mut i: usize = 0;
    while i < all.len()
        invariant
            i <= all@.len(),
            pattern_views(all@) == builtin_table(),
            pattern_views(out@) == rules_for_shell(pattern_views(all@).take(i as int), shell),
        decreases all@.len() - i,
    {
        let p = &all[i];
        proof {
            reveal(Seq::filter);
            assert(pattern_views(all@).take(i + 1).drop_last() =~= pattern_views(all@).take(i as int));
        }
        let keep = match p.shell_specific {
            None => true,
            Some(s) => s == shell,
        };
        if keep {
            out.push(p.duplicate());
            assert(pattern_views(out@) =~= rules_for_shell(pattern_views(all@).take(i as int), shell).push(p@));
        }
        i = i + 1;
    }
    assert(pattern_views(all@).take(all@.len() as int) =~= pattern_views(all@));
    out
}

/// Get built-in patterns whose risk is at least `min_risk`, in catalogue order.
pub fn get_patterns_by_risk(min_risk: RiskLevel) -> (r: Vec<DangerPattern>)
    ensures
        pattern_views(r@) == rules_at_least(builtin_table(), min_risk),
{
    let all = builtin_patterns();
    let mut out: Vec<DangerPattern> = Vec::new();
    let mut i: usize = 0;
    while i < all.len()
        invariant
            i <= all@.len(),
            pattern_views(all@) == builtin_table(),
            pattern_views(out@) == rules_at_least(pattern_views(all@).take(i as int), min_risk),
        decreases all@.len() - i,
    {
        let p = &all[i];
        proof {
            reveal(Seq::filter);
            assert(pattern_views(all@).take(i + 1).drop_last() =~= pattern_views(all@).take(i as int));
        }
        if p.risk_level.rank() >= min_risk.rank() {
            out.push(p.duplicate());
            assert(pattern_views(out@) =~= rules_at_least(pattern_views(all@).take(i as int), min_risk).push(p@));
        }
        i = i + 1;
    }
    assert(pattern_views(all@).take(all@.len() as int) =~= pattern_views(all@));
    out
}

/// The report for each entry of `rules` whose regular expression does not compile.
pub open spec fn compile_failures(rules: Seq<RuleView>) -> Seq<Seq<char>>
    decreases rules.len(),
{
    if rules.len() == 0 {
        Seq::empty()
    } else {
        let prev = compile_failures(rules.drop_last());
        let src = rules.last().source;
        if regex_compiles(src) {
            prev
        } else {
            prev.push("Pattern '"@ + src + "' failed to compile: "@ + regex_error_text(src))
        }
    }
}

/// Compiles every catalogue entry and reports those that fail, rather than
/// panicking, so the whole catalogue can be certified by a test.
pub fn validate_patterns() -> (r: Result<(), Vec<String>>)
    ensures
        r is Ok <==> compile_failures(builtin_table()).len() == 0,
        r matches Err(errs) ==> views(errs@) == compile_failures(builtin_table()),
{
    let all = builtin_patterns();
    let mut errors: Vec<String> = Vec::new();
    let mut i: usize = 0;
    while i < all.len()
        invariant
            i <= all@.len(),
            pattern_views(all@) == builtin_table(),
            views(errors@) == compile_failures(pattern_views(all@).take(i as int)),
        decreases all@.len() - i,
    {
        let p = &all[i];
        proof {
            assert(pattern_views(all@).take(i + 1).drop_last() =~= pattern_views(all@).take(i as int));
        }
        match compile(p.pattern.as_str()) {
            Ok(_) => {},
            Err(msg) => {
                let mut text = String::new();
                text.append("Pattern '");
                text.append(p.pattern.as_str());
                text.append("' failed to compile: ");
                text.append(msg.as_str());
                errors.push(text);
                assert(views(errors@) =~= compile_failures(pattern_views(all@).take(i as int)).push(text@));
            },
        }
        i = i + 1;
    }
    assert(pattern_views(all@).take(all@.len() as int) =~= pattern_views(all@));
    if errors.len() == 0 {
        Ok(())
    } else {
        Err(errors)
    }
}

} // verus!
