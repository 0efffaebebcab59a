//! Platform and shell detection, and the environment filter applied when
//! the execution context is captured.

use vstd::prelude::*;
use vstd::string::*;
use vstd::utf8::encode_utf8;
use crate::models::{Platform, ShellType};
use crate::text::{contains_bytes, has_sub, opt_view, upper_of, uppercase};

verus! {

/// Execution-related errors.
#[derive(Debug, Clone, PartialEq, Eq)]
pub enum ExecutionError {
    CurrentDirError(String),
    CurrentDirNotAccessible(String),
    EnvVarError(String),
    InvalidContext(String),
}

/// Platform detection from the operating-system name, as Rust's
/// `std::env::consts::OS` gives it.
#[derive(Debug)]
pub struct PlatformDetector;

impl PlatformDetector {
    /// The platform `os` names, if the assistant supports it.
    pub fn detect(os: &str) -> (r: Option<Platform>)
        ensures
            r == Platform::spec_of_os(os@),
    {
        Platform::detect(os)
    }

    /// Whether `os` names a POSIX-compliant platform.
    pub fn is_posix(os: &str) -> (r: bool)
        ensures
            r == (Platform::spec_of_os(os@) == Some(Platform::Linux) || Platform::spec_of_os(os@)
                == Some(Platform::MacOS)),
    {
        match Self::detect(os) {
            Some(p) => p.is_posix(),
            None => false,
        }
    }

    /// Whether `os` names Windows.
    pub fn is_windows(os: &str) -> (r: bool)
        ensures
            r == (Platform::spec_of_os(os@) == Some(Platform::Windows)),
    {
        matches!(Self::detect(os), Some(Platform::Windows))
    }

    /// Whether `os` names macOS.
    pub fn is_macos(os: &str) -> (r: bool)
        ensures
            r == (Platform::spec_of_os(os@) == Some(Platform::MacOS)),
    {
        matches!(Self::detect(os), Some(Platform::MacOS))
    }

    /// Whether `os` names Linux.
    pub fn is_linux(os: &str) -> (r: bool)
        ensures
            r == (Platform::spec_of_os(os@) == Some(Platform::Linux)),
    {
        matches!(Self::detect(os), Some(Platform::Linux))
    }
}

/// Shell detection with an optional user override; the value of the
/// `SHELL` environment variable is handed in by the caller.
#[derive(Debug)]
pub struct ShellDetector {
    override_shell: Option<ShellType>,
}

impl ShellDetector {
    /// The shell that takes precedence over detection, if any.
    pub closed spec fn spec_override(&self) -> Option<ShellType> {
        self.override_shell
    }

    /// What [`ShellDetector::detect`] answers for the `SHELL` value `shell_var`.
    pub open spec fn spec_detect(&self, shell_var: Option<Seq<char>>) -> ShellType {
        match self.spec_override() {
            Some(s) => s,
            None => if ShellType::spec_from_shell_var(shell_var) is Unknown {
                ShellType::Sh
            } else {
                ShellType::spec_from_shell_var(shell_var)
            },
        }
    }

    /// A detector without override.
    pub fn new() -> (r: ShellDetector)
        ensures
            r.spec_override() is None,
    {
        ShellDetector { override_shell: None }
    }

    /// The override, else the detected shell, with `Sh` standing in for an
    /// unrecognised one.
    pub fn detect(&self, shell_var: Option<&str>) -> (r: ShellType)
        ensures
            r == self.spec_detect(opt_view(shell_var)),
    {
        if let Some(s) = self.override_shell {
            return s;
        }
        let detected = ShellType::detect(shell_var);
        if matches!(detected, ShellType::Unknown) {
            ShellType::Sh
        } else {
            detected
        }
    }

    /// The override, else the detected shell; `None` if it is not recognised.
    pub fn detect_from_env(&self, shell_var: Option<&str>) -> (r: Option<ShellType>)
        ensures
            self.spec_override() matches Some(s) ==> r == Some(s),
            self.spec_override() is None ==> r == (if ShellType::spec_from_shell_var(
                opt_view(shell_var),
            ) is Unknown {
                None
            } else {
                Some(ShellType::spec_from_shell_var(opt_view(shell_var)))
            }),
    {
        if let Some(s) = self.override_shell {
            return Some(s);
        }
        let detected = ShellType::detect(shell_var);
        if matches!(detected, ShellType::Unknown) {
            None
        } else {
            Some(detected)
        }
    }

    /// `shell` if given, else what [`ShellDetector::detect`] finds.
    pub fn with_override(&self, shell: Option<ShellType>, shell_var: Option<&str>) -> (r: ShellType)
        ensures
            shell matches Some(s) ==> r == s,
            shell is None ==> r == self.spec_detect(opt_view(shell_var)),
    {
        match shell {
            Some(s) => s,
            None => self.detect(shell_var),
        }
    }

    /// The detected shell, or `fallback` when it is not recognised.
    pub fn detect_with_fallback(fallback: ShellType, shell_var: Option<&str>) -> (r: ShellType)
        ensures
            r == (if ShellType::spec_from_shell_var(opt_view(shell_var)) is Unknown {
                fallback
            } else {
                ShellType::spec_from_shell_var(opt_view(shell_var))
            }),
    {
        let detected = ShellType::detect(shell_var);
        if matches!(detected, ShellType::Unknown) {
            fallback
        } else {
            detected
        }
    }

    /// The shell named by an environment value when one is given (an
    /// unrecognised name gives `Unknown`), else the shell `SHELL` names.
    pub fn from_env_or_detect(value: Option<&str>, shell_var: Option<&str>) -> (r: ShellType)
        ensures
            value matches Some(v) ==> r == ShellType::spec_named(crate::text::lower_of(v@)),
            value is None ==> r == ShellType::spec_from_shell_var(opt_view(shell_var)),
    {
        match value {
            Some(v) => ShellType::parse(v),
            None => ShellType::detect(shell_var),
        }
    }

    /// Whether the detected shell is POSIX-compatible.
    pub fn is_posix_shell(shell_var: Option<&str>) -> (r: bool)
        ensures
            r == ShellType::spec_from_shell_var(opt_view(shell_var)).spec_is_posix(),
    {
        ShellType::detect(shell_var).is_posix()
    }
}

/// The context given to a model about where a command will run.
pub fn prompt_context(
    current_dir: &str,
    shell: ShellType,
    platform: Platform,
    username: &str,
    hostname: &str,
) -> (r: String)
    ensures
        r@ == "Current directory: "@ + current_dir@ + "\nShell: "@ + shell.spec_name()
            + "\nPlatform: "@ + platform.spec_name() + "\nUser: "@ + username@ + "@"@ + hostname@,
{
    let mut out = String::new();
    out.append("Current directory: ");
    out.append(current_dir);
    out.append("\nShell: ");
    out.append(shell.name());
    out.append("\nPlatform: ");
    out.append(platform.name());
    out.append("\nUser: ");
    out.append(username);
    out.append("@");
    out.append(hostname);
    out
}

impl Default for ShellDetector {
    fn default() -> (r: ShellDetector)
        ensures
            r.spec_override() is None,
    {
        ShellDetector::new()
    }
}

/// Name fragments that mark an environment variable as sensitive.
pub open spec fn sensitive_words() -> Seq<Seq<char>> {
    seq![
        "API_KEY"@,
        "TOKEN"@,
        "SECRET"@,
        "PASSWORD"@,
        "PASSWD"@,
        "CREDENTIAL"@,
        "AUTH"@,
        "PRIVATE"@,
        "KEY"@,
    ]
}

/// The name, once upper-cased, mentions a sensitive word.
pub open spec fn is_sensitive_name(name: Seq<char>) -> bool {
    mentions_sensitive(upper_of(name))
}

/// The (upper-cased) text mentions a sensitive word.
pub open spec fn mentions_sensitive(upper: Seq<char>) -> bool {
    exists|i: int|
        0 <= i < sensitive_words().len() && has_sub(
            encode_utf8(upper),
            encode_utf8(#[trigger] sensitive_words()[i]),
        )
}

/// A variable is kept when its name and value are non-empty and its name
/// is not sensitive.
pub open spec fn keeps_var(name: Seq<char>, value: Seq<char>) -> bool {
    name.len() > 0 && value.len() > 0 && !is_sensitive_name(name)
}

/// The views of environment variables.
pub open spec fn var_views(v: Seq<(String, String)>) -> Seq<(Seq<char>, Seq<char>)> {
    v.map_values(|p: (String, String)| (p.0@, p.1@))
}

/// Whether the variable name is sensitive.
fn sensitive_name(name: &str) -> (r: bool)
    ensures
        r == is_sensitive_name(name@),
{
    let upper = uppercase(name);
    mentions_sensitive_word(upper.as_str())
}

/// Whether an upper-cased variable name mentions one of the sensitive words.
pub fn mentions_sensitive_word(upper: &str) -> (r: bool)
    ensures
        r == mentions_sensitive(upper@),
{
    let b = upper.as_bytes();
    let words: [&str; 9] = [
        "API_KEY",
        "TOKEN",
        "SECRET",
        "PASSWORD",
        "PASSWD",
        "CREDENTIAL",
        "AUTH",
        "PRIVATE",
        "KEY",
    ];
    let ghost ws = sensitive_words();
    assert(forall|i: int| 0 <= i < 9 ==> (#[trigger] words@[i])@ == ws[i]);
    let mut i: usize = 0;
    while i < 9
        invariant
            i <= 9,
            b@ == encode_utf8(upper@),
            ws == sensitive_words(),
            forall|k: int| 0 <= k < 9 ==> (#[trigger] words@[k])@ == ws[k],
            forall|k: int| 0 <= k < i ==> !has_sub(b@, encode_utf8(#[trigger] ws[k])),
        decreases 9 - i,
    {
        if contains_bytes(b, words[i].as_bytes()) {
            assert(has_sub(b@, encode_utf8(ws[i as int])));
            return true;
        }
        i = i + 1;
    }
    false
}

/// The environment variables worth showing: those with a non-empty name
/// and value whose name mentions none of the sensitive words, in order.
pub fn filter_env_vars(vars: &Vec<(String, String)>) -> (r: Vec<(String, String)>)
    ensures
        var_views(r@) == var_views(vars@).filter(
            |p: (Seq<char>, Seq<char>)| keeps_var(p.0, p.1),
        ),
{
    let mut out: Vec<(String, String)> = Vec::new();
    let mut i: usize = 0;
    while i < vars.len()
        invariant
            i <= vars@.len(),
            var_views(out@) == var_views(vars@).take(i as int).filter(
                |p: (Seq<char>, Seq<char>)| keeps_var(p.0, p.1),
            ),
        decreases vars@.len() - i,
    {
        proof {
            reveal(Seq::filter);
            assert(var_views(vars@).take(i + 1).drop_last() =~= var_views(vars@).take(i as int));
        }
        let name = &vars[i].0;
        let value = &vars[i].1;
        if !name.as_str().is_empty() && !value.as_str().is_empty() && !sensitive_name(name.as_str()) {
            let ghost o0 = out@;
            out.push((name.clone(), value.clone()));
            assert(var_views(out@) =~= var_views(o0).push((name@, value@)));
        }
        i = i + 1;
    }
    assert(var_views(vars@).take(vars@.len() as int) =~= var_views(vars@));
    out
}

} // verus!
