//! Safety validation: classifies a shell command into a risk level and
//! decides, under a safety policy, whether it may run.

use vstd::prelude::*;
use vstd::string::*;
use vstd::utf8::encode_utf8;
use crate::matcher::{
    compile, fires, is_dangerous_in_context, is_match, regex_compiles, regex_error_text,
    regex_is_match, CompiledRegex,
};
use crate::patterns::builtin_table;
use crate::text::{
    contains_bytes, decimal, has_sub, join, join_strings, lower_of, lowercase, usize_text, views,
};
use crate::models::{RiskLevel, SafetyLevel, ShellType};

pub use crate::patterns::{
    builtin_patterns, get_patterns_by_risk, get_patterns_for_shell, validate_patterns,
};

verus! {

/// What a danger pattern says, as mathematical values.
pub ghost struct RuleView {
    pub source: Seq<char>,
    pub risk: RiskLevel,
    pub description: Seq<char>,
    pub scope: Option<ShellType>,
}

/// Pattern definition for dangerous command detection.
#[derive(Debug, Clone)]
pub struct DangerPattern {
    /// Regular expression source.
    pub pattern: String,
    pub risk_level: RiskLevel,
    pub description: String,
    /// The one shell the pattern is restricted to, if any.
    pub shell_specific: Option<ShellType>,
}

impl View for DangerPattern {
    type V = RuleView;

    open spec fn view(&self) -> RuleView {
        RuleView {
            source: self.pattern@,
            risk: self.risk_level,
            description: self.description@,
            scope: self.shell_specific,
        }
    }
}

/// The views of a sequence of patterns.
pub open spec fn pattern_views(s: Seq<DangerPattern>) -> Seq<RuleView> {
    s.map_values(|p: DangerPattern| p@)
}

impl DangerPattern {
    /// A pattern with the given fields.
    pub fn new(
        pattern: &str,
        risk_level: RiskLevel,
        description: &str,
        shell_specific: Option<ShellType>,
    ) -> (r: DangerPattern)
        ensures
            r@ == (RuleView { source: pattern@, risk: risk_level, description: description@, scope: shell_specific }),
    {
        DangerPattern {
            pattern: pattern.to_owned(),
            risk_level,
            description: description.to_owned(),
            shell_specific,
        }
    }

    /// A copy of the pattern.
    pub fn duplicate(&self) -> (r: DangerPattern)
        ensures
            r@ == self@,
    {
        DangerPattern {
            pattern: self.pattern.clone(),
            risk_level: self.risk_level,
            description: self.description.clone(),
            shell_specific: self.shell_specific,
        }
    }
}

/// A pattern restricted to `scope` fires for `shell`.
pub open spec fn applies_to(scope: Option<ShellType>, shell: ShellType) -> bool {
    scope is None || scope == Some(shell)
}

/// Configuration for safety validation behavior.
#[derive(Debug, Clone)]
pub struct SafetyConfig {
    pub safety_level: SafetyLevel,
    /// Longest command, in bytes, that is examined at all.
    pub max_command_length: usize,
    pub custom_patterns: Vec<DangerPattern>,
    pub allowlist_patterns: Vec<String>,
}

impl SafetyConfig {
    /// A configuration with the given level and length limit and no extra patterns.
    pub open spec fn spec_preset(level: SafetyLevel, max: usize, c: SafetyConfig) -> bool {
        &&& c.safety_level == level
        &&& c.max_command_length == max
        &&& c.custom_patterns@.len() == 0
        &&& c.allowlist_patterns@.len() == 0
    }

    /// Strict preset: blocks High and Critical, confirms Moderate.
    pub fn strict() -> (r: SafetyConfig)
        ensures
            Self::spec_preset(SafetyLevel::Strict, 1000, r),
    {
        SafetyConfig {
            safety_level: SafetyLevel::Strict,
            max_command_length: 1000,
            custom_patterns: Vec::new(),
            allowlist_patterns: Vec::new(),
        }
    }

    /// Moderate preset: blocks Critical only.
    pub fn moderate() -> (r: SafetyConfig)
        ensures
            Self::spec_preset(SafetyLevel::Moderate, 5000, r),
    {
        SafetyConfig {
            safety_level: SafetyLevel::Moderate,
            max_command_length: 5000,
            custom_patterns: Vec::new(),
            allowlist_patterns: Vec::new(),
        }
    }

    /// Permissive preset: never blocks.
    pub fn permissive() -> (r: SafetyConfig)
        ensures
            Self::spec_preset(SafetyLevel::Permissive, 10000, r),
    {
        SafetyConfig {
            safety_level: SafetyLevel::Permissive,
            max_command_length: 10000,
            custom_patterns: Vec::new(),
            allowlist_patterns: Vec::new(),
        }
    }

    /// Adds a custom dangerous pattern. The pattern is kept even when its
    /// regular expression does not compile, so that the error also comes
    /// back from [`SafetyValidator::new`]; here it is reported at once.
    pub fn add_custom_pattern(&mut self, pattern: DangerPattern) -> (r: Result<(), ValidationError>)
        ensures
            final(self).safety_level == old(self).safety_level,
            final(self).max_command_length == old(self).max_command_length,
            final(self).allowlist_patterns@ == old(self).allowlist_patterns@,
            final(self).custom_patterns@ == old(self).custom_patterns@.push(pattern),
            r is Ok <==> regex_compiles(pattern.pattern@),
            r matches Err(e) ==> e == (ValidationError::PatternError {
                pattern: e->PatternError_pattern,
            }) && e->PatternError_pattern@ == pattern.pattern@ + ": "@ + regex_error_text(
                pattern.pattern@,
            ),
    {
        let checked = compile(pattern.pattern.as_str());
        match checked {
            Ok(_) => {
                self.custom_patterns.push(pattern);
                Ok(())
            },
            Err(msg) => {
                let mut text = pattern.pattern.clone();
                text.append(": ");
                text.append(msg.as_str());
                self.custom_patterns.push(pattern);
                Err(ValidationError::PatternError { pattern: text })
            },
        }
    }

    /// Adds an allowlist pattern.
    pub fn add_allowlist_pattern(&mut self, pattern: &str)
        ensures
            final(self).safety_level == old(self).safety_level,
            final(self).max_command_length == old(self).max_command_length,
            final(self).custom_patterns@ == old(self).custom_patterns@,
            final(self).allowlist_patterns@.len() == old(self).allowlist_patterns@.len() + 1,
            forall|i: int|
                0 <= i < old(self).allowlist_patterns@.len() ==> final(self).allowlist_patterns@[i]
                    == old(self).allowlist_patterns@[i],
            final(self).allowlist_patterns@.last()@ == pattern@,
    {
        self.allowlist_patterns.push(pattern.to_owned());
    }
}

impl Default for SafetyConfig {
    fn default() -> (r: SafetyConfig)
        ensures
            Self::spec_preset(SafetyLevel::Moderate, 1000, r),
    {
        SafetyConfig {
            safety_level: SafetyLevel::Moderate,
            max_command_length: 1000,
            custom_patterns: Vec::new(),
            allowlist_patterns: Vec::new(),
        }
    }
}

/// Errors that can occur during safety validation.
#[derive(Debug, Clone, PartialEq, Eq)]
pub enum ValidationError {
    NotImplemented,
    InvalidConfig { message: String },
    PatternError { pattern: String },
    Timeout,
    Internal { message: String },
}

/// A danger pattern whose regular expression has been compiled.
#[derive(Debug)]
pub struct CompiledPattern {
    regex: CompiledRegex,
    risk_level: RiskLevel,
    description: String,
    shell_specific: Option<ShellType>,
}

impl View for CompiledPattern {
    type V = RuleView;

    closed spec fn view(&self) -> RuleView {
        RuleView {
            source: self.regex.source(),
            risk: self.risk_level,
            description: self.description@,
            scope: self.shell_specific,
        }
    }
}

impl CompiledPattern {
    /// The regular expression source.
    pub fn pattern(&self) -> (r: &str)
        ensures
            r@ == self@.source,
    {
        self.regex.as_str()
    }

    pub fn risk_level(&self) -> (r: RiskLevel)
        ensures
            r == self@.risk,
    {
        self.risk_level
    }

    pub fn description(&self) -> (r: &str)
        ensures
            r@ == self@.description,
    {
        self.description.as_str()
    }

    pub fn shell_specific(&self) -> (r: Option<ShellType>)
        ensures
            r == self@.scope,
    {
        self.shell_specific
    }
}

/// The catalogue entries that fire for `shell`, compiled; entries whose
/// regular expression does not compile are left out.
pub fn get_compiled_patterns_for_shell(shell: ShellType) -> (r: Vec<CompiledPattern>)
    ensures
        r@.map_values(|p: CompiledPattern| p@) == compiled_rules(
            crate::patterns::rules_for_shell(builtin_table(), shell),
        ),
{
    let table = get_patterns_for_shell(shell);
    let mut out: Vec<CompiledPattern> = Vec::new();
    let mut i: usize = 0;
    while i < table.len()
        invariant
            i <= table@.len(),
            pattern_views(table@) == crate::patterns::rules_for_shell(builtin_table(), shell),
            out@.map_values(|p: CompiledPattern| p@) == compiled_rules(
                pattern_views(table@).take(i as int),
            ),
        decreases table@.len() - i,
    {
        let p = &table[i];
        proof {
            reveal(Seq::filter);
            assert(pattern_views(table@).take(i + 1).drop_last() =~= pattern_views(table@).take(
                i as int,
            ));
        }
        match compile(p.pattern.as_str()) {
            Ok(re) => {
                let c = CompiledPattern {
                    regex: re,
                    risk_level: p.risk_level,
                    description: p.description.clone(),
                    shell_specific: p.shell_specific,
                };
                let ghost o0 = out@;
                out.push(c);
                assert(out@.map_values(|p: CompiledPattern| p@) =~= o0.map_values(
                    |p: CompiledPattern| p@,
                ).push(p@));
            },
            Err(_) => {},
        }
        i = i + 1;
    }
    assert(pattern_views(table@).take(table@.len() as int) =~= pattern_views(table@));
    out
}

/// Result of safety validation for a command.
#[derive(Debug, Clone)]
pub struct ValidationResult {
    pub allowed: bool,
    /// The risk level calls for the user's confirmation under the policy.
    pub requires_confirmation: bool,
    pub risk_level: RiskLevel,
    pub explanation: String,
    pub warnings: Vec<String>,
    pub matched_patterns: Vec<String>,
    /// Confidence in the verdict, in hundredths: 95 when nothing matched,
    /// 100 otherwise.
    pub confidence_percent: u8,
}

/// A validation result as mathematical values.
pub ghost struct ValidationView {
    pub allowed: bool,
    pub requires_confirmation: bool,
    pub risk_level: RiskLevel,
    pub explanation: Seq<char>,
    pub warnings: Seq<Seq<char>>,
    pub matched_patterns: Seq<Seq<char>>,
    pub confidence_percent: u8,
}

impl View for ValidationResult {
    type V = ValidationView;

    open spec fn view(&self) -> ValidationView {
        ValidationView {
            allowed: self.allowed,
            requires_confirmation: self.requires_confirmation,
            risk_level: self.risk_level,
            explanation: self.explanation@,
            warnings: views(self.warnings@),
            matched_patterns: views(self.matched_patterns@),
            confidence_percent: self.confidence_percent,
        }
    }
}

/// The entries of `rules` whose regular expressions compile.
pub open spec fn compiled_rules(rules: Seq<RuleView>) -> Seq<RuleView> {
    rules.filter(|r: RuleView| regex_compiles(r.source))
}

/// The sources in `srcs` that compile.
pub open spec fn compiled_sources(srcs: Seq<Seq<char>>) -> Seq<Seq<char>> {
    srcs.filter(|s: Seq<char>| regex_compiles(s))
}

/// The rule fires for `cmd` in `shell`: it applies to the shell and one of
/// its matches lies outside every quoted literal.
pub open spec fn rule_hits(r: RuleView, cmd: Seq<char>, shell: ShellType) -> bool {
    applies_to(r.scope, shell) && fires(r.source, cmd)
}

/// The rules that fire for `cmd` in `shell`, in order.
pub open spec fn hits(rules: Seq<RuleView>, cmd: Seq<char>, shell: ShellType) -> Seq<RuleView> {
    rules.filter(|r: RuleView| rule_hits(r, cmd, shell))
}

/// The highest risk among `rs`; `Safe` when there is none.
pub open spec fn max_risk(rs: Seq<RuleView>) -> RiskLevel
    decreases rs.len(),
{
    if rs.len() == 0 {
        RiskLevel::Safe
    } else {
        max_risk(rs.drop_last()).spec_max(rs.last().risk)
    }
}

/// Index of the first allowlist source at or after `i` matching `cmd`.
pub open spec fn first_allow_from(srcs: Seq<Seq<char>>, cmd: Seq<char>, i: nat) -> Option<nat>
    decreases srcs.len() - i,
{
    if i >= srcs.len() {
        None
    } else if regex_is_match(srcs[i as int], cmd) {
        Some(i)
    } else {
        first_allow_from(srcs, cmd, i + 1)
    }
}

/// The (lower-cased) text mentions `word`.
pub open spec fn mentions(lower: Seq<char>, word: Seq<char>) -> bool {
    has_sub(encode_utf8(lower), encode_utf8(word))
}

/// `seq![k]` when `c` holds, else nothing.
pub open spec fn keyword_if(c: bool, k: Seq<char>) -> Seq<Seq<char>> {
    if c {
        seq![k]
    } else {
        Seq::empty()
    }
}

/// The risk categories a pattern description names.
pub open spec fn keywords_of(description: Seq<char>) -> Seq<Seq<char>> {
    keywords_from_lower(lower_of(description))
}

/// The risk categories a lower-cased description names.
pub open spec fn keywords_from_lower(d: Seq<char>) -> Seq<Seq<char>> {
    keyword_if(mentions(d, "delet"@), "deletion"@)
        + keyword_if(mentions(d, "remov"@), "removal"@)
        + keyword_if(mentions(d, "recursive"@), "recursive"@)
        + keyword_if(
        mentions(d, "privilege"@) || mentions(d, "root"@) || mentions(d, "sudo"@),
        "privilege escalation"@,
    ) + keyword_if(mentions(d, "network"@) || mentions(d, "backdoor"@), "network"@)
        + keyword_if(mentions(d, "disk"@) || mentions(d, "format"@), "disk"@)
}

/// The categories of all descriptions, in order, repeats included.
pub open spec fn all_keywords(descs: Seq<Seq<char>>) -> Seq<Seq<char>>
    decreases descs.len(),
{
    if descs.len() == 0 {
        Seq::empty()
    } else {
        all_keywords(descs.drop_last()) + keywords_of(descs.last())
    }
}

/// `s` with later repeats removed, first occurrences kept in order.
pub open spec fn dedup(s: Seq<Seq<char>>) -> Seq<Seq<char>>
    decreases s.len(),
{
    if s.len() == 0 {
        Seq::empty()
    } else {
        let prev = dedup(s.drop_last());
        if prev.contains(s.last()) {
            prev
        } else {
            prev.push(s.last())
        }
    }
}

/// The descriptions of `rs`.
pub open spec fn descriptions(rs: Seq<RuleView>) -> Seq<Seq<char>> {
    rs.map_values(|r: RuleView| r.description)
}

/// The warning reported for a rule that fired.
pub open spec fn warning_for(r: RuleView) -> Seq<char> {
    r.risk.spec_name() + ": "@ + r.description
}

/// The parenthesised category list of an explanation, if any category applies.
pub open spec fn keyword_suffix(descs: Seq<Seq<char>>) -> Seq<char> {
    if all_keywords(descs).len() == 0 {
        Seq::empty()
    } else {
        " ("@ + join(dedup(all_keywords(descs)), ", "@) + ")"@
    }
}

/// The explanation for the rules that fired.
pub open spec fn explanation_for(rs: Seq<RuleView>) -> Seq<char> {
    if rs.len() == 0 {
        "No dangerous patterns detected"@
    } else {
        "Detected "@ + decimal(rs.len()) + " dangerous pattern(s) at "@ + max_risk(rs).spec_name()
            + " risk level"@ + keyword_suffix(descriptions(rs))
    }
}

/// The verdict once the rules in `rs` have fired under `level`.
pub open spec fn pattern_outcome(rs: Seq<RuleView>, level: SafetyLevel) -> ValidationView {
    let risk = max_risk(rs);
    ValidationView {
        allowed: !risk.spec_is_blocked(level) && !risk.spec_requires_confirmation(level),
        requires_confirmation: risk.spec_requires_confirmation(level),
        risk_level: risk,
        explanation: explanation_for(rs),
        warnings: rs.map_values(|r: RuleView| warning_for(r)),
        matched_patterns: descriptions(rs),
        confidence_percent: if rs.len() == 0 { 95 } else { 100 },
    }
}

/// The verdict on a command of `len` bytes, over the limit `max`.
pub open spec fn length_outcome(len: nat, max: nat) -> ValidationView {
    ValidationView {
        allowed: false,
        requires_confirmation: false,
        risk_level: RiskLevel::Moderate,
        explanation: "Command exceeds maximum length of "@ + decimal(max) + " characters: it is "@
            + decimal(len) + " characters long"@,
        warnings: seq![
            "Command is "@ + decimal(len) + " characters long (max: "@ + decimal(max) + ")"@,
        ],
        matched_patterns: Seq::empty(),
        confidence_percent: 100,
    }
}

/// The verdict on a command that the allowlist source `src` matches.
pub open spec fn allow_outcome(src: Seq<char>) -> ValidationView {
    ValidationView {
        allowed: true,
        requires_confirmation: false,
        risk_level: RiskLevel::Safe,
        explanation: "Command matches allowlist pattern"@,
        warnings: Seq::empty(),
        matched_patterns: seq![src],
        confidence_percent: 100,
    }
}

/// The verdict on a command within the length limit: the allowlist first,
/// then the danger patterns.
pub open spec fn screened_outcome(
    level: SafetyLevel,
    rules: Seq<RuleView>,
    allow: Seq<Seq<char>>,
    cmd: Seq<char>,
    shell: ShellType,
) -> ValidationView {
    if let Some(k) = first_allow_from(allow, cmd, 0) {
        allow_outcome(allow[k as int])
    } else {
        pattern_outcome(hits(rules, cmd, shell), level)
    }
}

/// The verdict on `cmd` in `shell`: the length limit first, then the
/// allowlist, then the danger patterns.
pub open spec fn outcome(
    max: usize,
    level: SafetyLevel,
    rules: Seq<RuleView>,
    allow: Seq<Seq<char>>,
    cmd: Seq<char>,
    shell: ShellType,
) -> ValidationView {
    let len = encode_utf8(cmd).len();
    if len > max {
        length_outcome(len, max as nat)
    } else {
        screened_outcome(level, rules, allow, cmd, shell)
    }
}

/// Two results that both meet the contract of `validate_command` for the
/// same validator, command and shell are equal: validation is deterministic.
pub proof fn lemma_validation_deterministic(
    v: &SafetyValidator,
    command: Seq<char>,
    shell: ShellType,
    first: ValidationResult,
    second: ValidationResult,
)
    requires
        first@ == v.spec_outcome(command, shell),
        second@ == v.spec_outcome(command, shell),
    ensures
        first@ == second@,
{
}

/// The policy table is monotone: every level that Moderate blocks, Strict
/// blocks too, Strict also blocks High, which Moderate lets through, and
/// Permissive blocks nothing.
pub proof fn lemma_policy_monotone(risk: RiskLevel)
    ensures
        risk.spec_is_blocked(SafetyLevel::Moderate) ==> risk.spec_is_blocked(SafetyLevel::Strict),
        RiskLevel::High.spec_is_blocked(SafetyLevel::Strict),
        !RiskLevel::High.spec_is_blocked(SafetyLevel::Moderate),
        !risk.spec_is_blocked(SafetyLevel::Permissive),
{
}

/// For any command, the safety level changes only the decision, never the
/// risk level: whatever Strict allows, Moderate allows, and whatever
/// Moderate allows, Permissive allows.
pub proof fn lemma_outcome_monotone(
    max: usize,
    rules: Seq<RuleView>,
    allow: Seq<Seq<char>>,
    cmd: Seq<char>,
    shell: ShellType,
)
    ensures
        outcome(max, SafetyLevel::Strict, rules, allow, cmd, shell).risk_level == outcome(
            max,
            SafetyLevel::Moderate,
            rules,
            allow,
            cmd,
            shell,
        ).risk_level,
        outcome(max, SafetyLevel::Moderate, rules, allow, cmd, shell).risk_level == outcome(
            max,
            SafetyLevel::Permissive,
            rules,
            allow,
            cmd,
            shell,
        ).risk_level,
        outcome(max, SafetyLevel::Strict, rules, allow, cmd, shell).allowed ==> outcome(
            max,
            SafetyLevel::Moderate,
            rules,
            allow,
            cmd,
            shell,
        ).allowed,
        outcome(max, SafetyLevel::Moderate, rules, allow, cmd, shell).allowed ==> outcome(
            max,
            SafetyLevel::Permissive,
            rules,
            allow,
            cmd,
            shell,
        ).allowed,
{
}

proof fn lemma_first_allow_found(allow: Seq<Seq<char>>, cmd: Seq<char>, i: nat, k: int)
    requires
        i <= k < allow.len(),
        regex_is_match(allow[k], cmd),
    ensures
        first_allow_from(allow, cmd, i) is Some,
    decreases k - i,
{
    if !regex_is_match(allow[i as int], cmd) {
        lemma_first_allow_found(allow, cmd, i + 1, k);
    }
}

/// A command within the length limit that some compiled allowlist pattern
/// matches is allowed at risk `Safe`, whatever danger patterns it matches.
pub proof fn lemma_allowlist_precedence(
    max: usize,
    level: SafetyLevel,
    rules: Seq<RuleView>,
    allow: Seq<Seq<char>>,
    cmd: Seq<char>,
    shell: ShellType,
    k: int,
)
    requires
        encode_utf8(cmd).len() <= max,
        0 <= k < allow.len(),
        regex_is_match(allow[k], cmd),
    ensures
        outcome(max, level, rules, allow, cmd, shell).allowed,
        outcome(max, level, rules, allow, cmd, shell).risk_level == RiskLevel::Safe,
{
    lemma_first_allow_found(allow, cmd, 0, k);
}

/// A command of exactly the limit's length passes the length check and is
/// judged by the allowlist and the patterns, as under any larger limit
/// `other_max`; one byte more is refused at risk `Moderate`, whatever it
/// holds.
pub proof fn lemma_length_boundary(
    max: usize,
    other_max: usize,
    level: SafetyLevel,
    rules: Seq<RuleView>,
    allow: Seq<Seq<char>>,
    cmd: Seq<char>,
    shell: ShellType,
)
    ensures
        encode_utf8(cmd).len() == max ==> outcome(max, level, rules, allow, cmd, shell)
            == screened_outcome(level, rules, allow, cmd, shell),
        encode_utf8(cmd).len() <= max && encode_utf8(cmd).len() <= other_max ==> outcome(
            max,
            level,
            rules,
            allow,
            cmd,
            shell,
        ) == outcome(other_max, level, rules, allow, cmd, shell),
        encode_utf8(cmd).len() == max + 1 ==> !outcome(max, level, rules, allow, cmd, shell).allowed
            && outcome(max, level, rules, allow, cmd, shell).risk_level == RiskLevel::Moderate,
{
}

/// The risk categories a pattern description names, in a fixed order.
fn keywords_for(description: &str) -> (r: Vec<String>)
    ensures
        views(r@) == keywords_of(description@),
{
    let lower = lowercase(description);
    lower_keywords(lower.as_str())
}

/// The risk categories a lower-cased description names, in the order
/// deletion, removal, recursive, privilege escalation, network, disk.
pub fn lower_keywords(lower: &str) -> (r: Vec<String>)
    ensures
        views(r@) == keywords_from_lower(lower@),
{
    let b = lower.as_bytes();
    let mut v: Vec<String> = Vec::new();
    if contains_bytes(b, "delet".as_bytes()) {
        v.push("deletion".to_owned());
    }
    let ghost v1 = views(v@);
    if contains_bytes(b, "remov".as_bytes()) {
        v.push("removal".to_owned());
    }
    let ghost v2 = views(v@);
    if contains_bytes(b, "recursive".as_bytes()) {
        v.push("recursive".to_owned());
    }
    let ghost v3 = views(v@);
    if contains_bytes(b, "privilege".as_bytes()) || contains_bytes(b, "root".as_bytes())
        || contains_bytes(b, "sudo".as_bytes()) {
        v.push("privilege escalation".to_owned());
    }
    let ghost v4 = views(v@);
    if contains_bytes(b, "network".as_bytes()) || contains_bytes(b, "backdoor".as_bytes()) {
        v.push("network".to_owned());
    }
    let ghost v5 = views(v@);
    if contains_bytes(b, "disk".as_bytes()) || contains_bytes(b, "format".as_bytes()) {
        v.push("disk".to_owned());
    }
    let ghost d = lower@;
    assert(v1 =~= keyword_if(mentions(d, "delet"@), "deletion"@));
    assert(v2 =~= v1 + keyword_if(mentions(d, "remov"@), "removal"@));
    assert(v3 =~= v2 + keyword_if(mentions(d, "recursive"@), "recursive"@));
    assert(v4 =~= v3 + keyword_if(
        mentions(d, "privilege"@) || mentions(d, "root"@) || mentions(d, "sudo"@),
        "privilege escalation"@,
    ));
    assert(v5 =~= v4 + keyword_if(mentions(d, "network"@) || mentions(d, "backdoor"@), "network"@));
    assert(views(v@) =~= v5 + keyword_if(mentions(d, "disk"@) || mentions(d, "format"@), "disk"@));
    v
}

/// Whether `v` holds a string equal to `s`.
fn contains_text(v: &Vec<String>, s: &String) -> (r: bool)
    ensures
        r == views(v@).contains(s@),
{
    let mut i: usize = 0;
    while i < v.len()
        invariant
            i <= v@.len(),
            forall|j: int| 0 <= j < i ==> v@[j]@ != s@,
        decreases v@.len() - i,
    {
        if v[i] == *s {
            assert(views(v@)[i as int] == s@);
            return true;
        }
        i = i + 1;
    }
    assert forall|j: int| 0 <= j < views(v@).len() implies views(v@)[j] != s@ by {}
    false
}

/// The explanation for a non-empty list of matched descriptions at risk `risk`.
fn explain_matches(descs: &Vec<String>, risk: RiskLevel) -> (r: String)
    requires
        descs@.len() > 0,
    ensures
        r@ == "Detected "@ + decimal(descs@.len()) + " dangerous pattern(s) at "@ + risk.spec_name()
            + " risk level"@ + keyword_suffix(views(descs@)),
{
    let mut kws: Vec<String> = Vec::new();
    let mut i: usize = 0;
    while i < descs.len()
        invariant
            i <= descs@.len(),
            views(kws@) == all_keywords(views(descs@).take(i as int)),
        decreases descs@.len() - i,
    {
        let found = keywords_for(descs[i].as_str());
        let ghost before = views(kws@);
        let mut j: usize = 0;
        while j < found.len()
            invariant
                j <= found@.len(),
                views(kws@) == before + views(found@).take(j as int),
            decreases found@.len() - j,
        {
            let ghost k0 = kws@;
            kws.push(found[j].clone());
            assert(views(kws@) =~= views(k0).push(found@[j as int]@));
            assert(views(found@).take(j + 1) =~= views(found@).take(j as int).push(found@[j as int]@));
            assert(views(kws@) =~= before + views(found@).take(j + 1));
            j = j + 1;
        }
        proof {
            assert(views(found@).take(found@.len() as int) =~= views(found@));
            assert(views(descs@).take(i + 1).drop_last() =~= views(descs@).take(i as int));
        }
        i = i + 1;
    }
    assert(views(descs@).take(descs@.len() as int) =~= views(descs@));
    let mut unique: Vec<String> = Vec::new();
    let mut k: usize = 0;
    while k < kws.len()
        invariant
            k <= kws@.len(),
            views(unique@) == dedup(views(kws@).take(k as int)),
        decreases kws@.len() - k,
    {
        proof {
            assert(views(kws@).take(k + 1).drop_last() =~= views(kws@).take(k as int));
        }
        if !contains_text(&unique, &kws[k]) {
            let ghost u0 = unique@;
            unique.push(kws[k].clone());
            assert(views(unique@) =~= views(u0).push(kws@[k as int]@));
        }
        k = k + 1;
    }
    assert(views(kws@).take(kws@.len() as int) =~= views(kws@));
    let mut out = String::new();
    out.append("Detected ");
    out.append(usize_text(descs.len()).as_str());
    out.append(" dangerous pattern(s) at ");
    out.append(risk.name());
    out.append(" risk level");
    if kws.len() > 0 {
        out.append(" (");
        out.append(join_strings(&unique, ", ").as_str());
        out.append(")");
    }
    out
}

/// The verdict once the patterns in `matched` have fired, in order, under
/// `level`: the highest risk governs, the policy table decides, and the
/// explanation counts the matches and names their categories.
pub fn verdict_for_matches(matched: &Vec<DangerPattern>, level: SafetyLevel) -> (r: ValidationResult)
    ensures
        r@ == pattern_outcome(pattern_views(matched@), level),
{
    let ghost rs = pattern_views(matched@);
    let mut descs: Vec<String> = Vec::new();
    let mut warnings: Vec<String> = Vec::new();
    let mut highest = RiskLevel::Safe;
    let mut i: usize = 0;
    while i < matched.len()
        invariant
            i <= matched@.len(),
            rs == pattern_views(matched@),
            views(descs@) == descriptions(rs.take(i as int)),
            views(warnings@) == rs.take(i as int).map_values(|r: RuleView| warning_for(r)),
            highest == max_risk(rs.take(i as int)),
        decreases matched@.len() - i,
    {
        let p = &matched[i];
        let ghost d0 = descs@;
        let ghost w0 = warnings@;
        descs.push(p.description.clone());
        let mut w = String::new();
        w.append(p.risk_level.name());
        w.append(": ");
        w.append(p.description.as_str());
        warnings.push(w);
        if p.risk_level.rank() > highest.rank() {
            highest = p.risk_level;
        }
        proof {
            let now = rs.take(i + 1);
            assert(now =~= rs.take(i as int).push(p@));
            assert(now.drop_last() =~= rs.take(i as int));
            assert(views(descs@) =~= views(d0).push(p@.description));
            assert(descriptions(now) =~= descriptions(rs.take(i as int)).push(p@.description));
            assert(views(warnings@) =~= views(w0).push(warning_for(p@)));
            assert(now.map_values(|r: RuleView| warning_for(r)) =~= rs.take(i as int).map_values(
                |r: RuleView| warning_for(r),
            ).push(warning_for(p@)));
        }
        i = i + 1;
    }
    assert(rs.take(rs.len() as int) =~= rs);
    let requires_confirmation = highest.requires_confirmation(level);
    let blocked = highest.is_blocked(level);
    let explanation = if descs.len() == 0 {
        "No dangerous patterns detected".to_owned()
    } else {
        explain_matches(&descs, highest)
    };
    assert(descriptions(rs).len() == rs.len());
    let confidence_percent: u8 = if descs.len() == 0 {
        95
    } else {
        100
    };
    let res = ValidationResult {
        allowed: !blocked && !requires_confirmation,
        requires_confirmation,
        risk_level: highest,
        explanation,
        warnings,
        matched_patterns: descs,
        confidence_percent,
    };
    proof {
        let expected = pattern_outcome(rs, level);
        assert(res@.explanation == expected.explanation);
        assert(res@.warnings == expected.warnings);
        assert(res@.matched_patterns == expected.matched_patterns);
    }
    res
}

/// Validates commands against the built-in catalogue and a configuration's
/// own patterns, compiled once when the validator is made.
#[derive(Debug)]
pub struct SafetyValidator {
    config: SafetyConfig,
    rules: Vec<CompiledPattern>,
    allowlist: Vec<CompiledRegex>,
}

impl SafetyValidator {
    /// The configuration the validator was made from.
    pub closed spec fn spec_config(&self) -> SafetyConfig {
        self.config
    }

    /// The compiled rules: the catalogue entries first, then the custom ones.
    pub closed spec fn spec_rules(&self) -> Seq<RuleView> {
        self.rules@.map_values(|p: CompiledPattern| p@)
    }

    /// The sources of the compiled allowlist patterns.
    pub closed spec fn spec_allowlist(&self) -> Seq<Seq<char>> {
        self.allowlist@.map_values(|r: CompiledRegex| r.source())
    }

    /// Validates the configuration and compiles every pattern once.
    ///
    /// Fails with `InvalidConfig` when the length limit is zero, and with
    /// `PatternError` naming the first custom pattern that does not compile.
    /// Catalogue entries that do not compile are left out; allowlist entries
    /// that do not compile never match.
    pub fn new(config: SafetyConfig) -> (r: Result<SafetyValidator, ValidationError>)
        ensures
            config.max_command_length == 0 ==> (r matches Err(ValidationError::InvalidConfig { message })
                && message@ == "max_command_length must be positive"@),
            forall|k: int|
                #![trigger config.custom_patterns@[k]]
                0 <= k < config.custom_patterns@.len() && config.max_command_length > 0
                    && !regex_compiles(config.custom_patterns@[k].pattern@) && (forall|j: int|
                    0 <= j < k ==> regex_compiles(config.custom_patterns@[j].pattern@))
                    ==> (r matches Err(ValidationError::PatternError { pattern }) && pattern@
                    == config.custom_patterns@[k].pattern@ + ": "@ + regex_error_text(
                    config.custom_patterns@[k].pattern@,
                )),
            r is Ok <==> config.max_command_length > 0 && forall|k: int|
                0 <= k < config.custom_patterns@.len() ==> regex_compiles(
                    #[trigger] config.custom_patterns@[k].pattern@,
                ),
            r matches Ok(v) ==> v.spec_config() == config && v.spec_rules() == compiled_rules(
                builtin_table(),
            ) + pattern_views(config.custom_patterns@) && v.spec_allowlist() == compiled_sources(
                views(config.allowlist_patterns@),
            ),
    {
        if config.max_command_length == 0 {
            return Err(
                ValidationError::InvalidConfig {
                    message: "max_command_length must be positive".to_owned(),
                },
            );
        }
        let table = builtin_patterns();
        let mut rules: Vec<CompiledPattern> = Vec::new();
        let mut i: usize = 0;
        while i < table.len()
            invariant
                i <= table@.len(),
                pattern_views(table@) == builtin_table(),
                rules@.map_values(|p: CompiledPattern| p@) == compiled_rules(
                    pattern_views(table@).take(i as int),
                ),
            decreases table@.len() - i,
        {
            let p = &table[i];
            proof {
                reveal(Seq::filter);
                assert(pattern_views(table@).take(i + 1).drop_last() =~= pattern_views(table@).take(
                    i as int,
                ));
            }
            match compile(p.pattern.as_str()) {
                Ok(re) => {
                    let c = CompiledPattern {
                        regex: re,
                        risk_level: p.risk_level,
                        description: p.description.clone(),
                        shell_specific: p.shell_specific,
                    };
                    rules.push(c);
                    assert(rules@.map_values(|p: CompiledPattern| p@) =~= compiled_rules(
                        pattern_views(table@).take(i as int),
                    ).push(p@));
                },
                Err(_) => {},
            }
            i = i + 1;
        }
        assert(pattern_views(table@).take(table@.len() as int) =~= pattern_views(table@));
        let ghost base = rules@.map_values(|p: CompiledPattern| p@);
        let mut k: usize = 0;
        while k < config.custom_patterns.len()
            invariant
                k <= config.custom_patterns@.len(),
                config.max_command_length > 0,
                base == compiled_rules(builtin_table()),
                forall|j: int| 0 <= j < k ==> regex_compiles(#[trigger] config.custom_patterns@[j].pattern@),
                rules@.map_values(|p: CompiledPattern| p@) == base + pattern_views(
                    config.custom_patterns@,
                ).take(k as int),
            decreases config.custom_patterns@.len() - k,
        {
            let p = &config.custom_patterns[k];
            match compile(p.pattern.as_str()) {
                Ok(re) => {
                    let c = CompiledPattern {
                        regex: re,
                        risk_level: p.risk_level,
                        description: p.description.clone(),
                        shell_specific: p.shell_specific,
                    };
                    let ghost before = rules@;
                    rules.push(c);
                    assert(c@ == config.custom_patterns@[k as int]@);
                    assert(pattern_views(config.custom_patterns@).take(k + 1) =~= pattern_views(
                        config.custom_patterns@,
                    ).take(k as int).push(config.custom_patterns@[k as int]@));
                    assert(rules@.map_values(|p: CompiledPattern| p@) =~= before.map_values(
                        |p: CompiledPattern| p@,
                    ).push(c@));
                    assert(rules@.map_values(|p: CompiledPattern| p@) =~= base + pattern_views(
                        config.custom_patterns@,
                    ).take(k + 1));
                },
                Err(msg) => {
                    let mut text = p.pattern.clone();
                    text.append(": ");
                    text.append(msg.as_str());
                    return Err(ValidationError::PatternError { pattern: text });
                },
            }
            k = k + 1;
        }
        assert(pattern_views(config.custom_patterns@).take(config.custom_patterns@.len() as int)
            =~= pattern_views(config.custom_patterns@));
        let mut allowlist: Vec<CompiledRegex> = Vec::new();
        let mut a: usize = 0;
        while a < config.allowlist_patterns.len()
            invariant
                a <= config.allowlist_patterns@.len(),
                allowlist@.map_values(|r: CompiledRegex| r.source()) == compiled_sources(
                    views(config.allowlist_patterns@).take(a as int),
                ),
            decreases config.allowlist_patterns@.len() - a,
        {
            proof {
                reveal(Seq::filter);
                assert(views(config.allowlist_patterns@).take(a + 1).drop_last() =~= views(
                    config.allowlist_patterns@,
                ).take(a as int));
            }
            match compile(config.allowlist_patterns[a].as_str()) {
                Ok(re) => {
                    allowlist.push(re);
                    assert(allowlist@.map_values(|r: CompiledRegex| r.source()) =~= compiled_sources(
                        views(config.allowlist_patterns@).take(a as int),
                    ).push(config.allowlist_patterns@[a as int]@));
                },
                Err(_) => {},
            }
            a = a + 1;
        }
        assert(views(config.allowlist_patterns@).take(config.allowlist_patterns@.len() as int)
            =~= views(config.allowlist_patterns@));
        Ok(SafetyValidator { config, rules, allowlist })
    }

    /// Validate a single command for safety.
    ///
    /// The length limit is checked first, then the allowlist, then the danger
    /// patterns that apply to `shell`; the policy table of the configured
    /// safety level turns the highest risk found into the verdict.
    pub fn validate_command(&self, command: &str, shell: ShellType) -> (r: Result<
        ValidationResult,
        ValidationError,
    >)
        ensures
            r is Ok,
            r matches Ok(v) ==> v@ == self.spec_outcome(command@, shell),
    {
        let max = self.config.max_command_length;
        let len = command.as_bytes().len();
        assert(len == encode_utf8(command@).len());
        if len > max {
            let mut explanation = String::new();
            explanation.append("Command exceeds maximum length of ");
            explanation.append(usize_text(max).as_str());
            explanation.append(" characters: it is ");
            explanation.append(usize_text(len).as_str());
            explanation.append(" characters long");
            let mut warning = String::new();
            warning.append("Command is ");
            warning.append(usize_text(len).as_str());
            warning.append(" characters long (max: ");
            warning.append(usize_text(max).as_str());
            warning.append(")");
            let mut warnings: Vec<String> = Vec::new();
            warnings.push(warning);
            let res = ValidationResult {
                allowed: false,
                requires_confirmation: false,
                risk_level: RiskLevel::Moderate,
                explanation,
                warnings,
                matched_patterns: Vec::new(),
                confidence_percent: 100,
            };
            let ghost expected = length_outcome(len as nat, max as nat);
            assert(res@.explanation =~= expected.explanation);
            assert(res@.warnings[0] =~= expected.warnings[0]);
            assert(res@.warnings =~= expected.warnings);
            assert(res@.matched_patterns =~= expected.matched_patterns);
            assert(res@ == expected);
            return Ok(res);
        }
        let mut a: usize = 0;
        while a < self.allowlist.len()
            invariant
                len == encode_utf8(command@).len(),
                len <= max,
                max == self.spec_config().max_command_length,
                a <= self.allowlist@.len(),
                self.spec_allowlist().len() == self.allowlist@.len(),
                first_allow_from(self.spec_allowlist(), command@, 0) == first_allow_from(
                    self.spec_allowlist(),
                    command@,
                    a as nat,
                ),
            decreases self.allowlist@.len() - a,
        {
            let re = &self.allowlist[a];
            assert(self.spec_allowlist()[a as int] == re.source());
            if is_match(re, command) {
                let mut matched: Vec<String> = Vec::new();
                matched.push(re.as_str().to_owned());
                let res = ValidationResult {
                    allowed: true,
                    requires_confirmation: false,
                    risk_level: RiskLevel::Safe,
                    explanation: "Command matches allowlist pattern".to_owned(),
                    warnings: Vec::new(),
                    matched_patterns: matched,
                    confidence_percent: 100,
                };
                assert(res@.warnings =~= Seq::<Seq<char>>::empty());
                assert(res@.matched_patterns =~= seq![re.source()]);
                assert(first_allow_from(self.spec_allowlist(), command@, a as nat) == Some(a as nat));
                assert(res@ == allow_outcome(self.spec_allowlist()[a as int]));
                return Ok(res);
            }
            a = a + 1;
        }
        let ghost rules = self.spec_rules();
        let mut fired: Vec<DangerPattern> = Vec::new();
        let mut i: usize = 0;
        while i < self.rules.len()
            invariant
                i <= self.rules@.len(),
                rules == self.spec_rules(),
                rules.len() == self.rules@.len(),
                pattern_views(fired@) == hits(rules.take(i as int), command@, shell),
            decreases self.rules@.len() - i,
        {
            let rule = &self.rules[i];
            proof {
                reveal(Seq::filter);
                assert(rules.take(i + 1).drop_last() =~= rules.take(i as int));
                assert(rules[i as int] == rule@);
            }
            let applies = match rule.shell_specific {
                None => true,
                Some(s) => s == shell,
            };
            if applies && is_dangerous_in_context(command, &rule.regex) {
                let p = DangerPattern {
                    pattern: rule.regex.as_str().to_owned(),
                    risk_level: rule.risk_level,
                    description: rule.description.clone(),
                    shell_specific: rule.shell_specific,
                };
                let ghost f0 = fired@;
                fired.push(p);
                assert(pattern_views(fired@) =~= pattern_views(f0).push(rule@));
            }
            i = i + 1;
        }
        assert(rules.take(rules.len() as int) =~= rules);
        let res = verdict_for_matches(&fired, self.config.safety_level);
        assert(first_allow_from(self.spec_allowlist(), command@, 0) is None);
        Ok(res)
    }

    /// Validate several commands, each independently and in order.
    pub fn validate_batch(&self, commands: &[String], shell: ShellType) -> (r: Result<
        Vec<ValidationResult>,
        ValidationError,
    >)
        ensures
            r is Ok,
            r matches Ok(v) ==> v@.len() == commands@.len() && forall|i: int|
                0 <= i < commands@.len() ==> (#[trigger] v@[i])@ == self.spec_outcome(
                    commands@[i]@,
                    shell,
                ),
    {
        let mut results: Vec<ValidationResult> = Vec::new();
        let mut i: usize = 0;
        while i < commands.len()
            invariant
                i <= commands@.len(),
                results@.len() == i,
                forall|j: int|
                    0 <= j < i ==> (#[trigger] results@[j])@ == self.spec_outcome(
                        commands@[j]@,
                        shell,
                    ),
            decreases commands@.len() - i,
        {
            let one = self.validate_command(commands[i].as_str(), shell);
            match one {
                Ok(v) => {
                    results.push(v);
                },
                Err(e) => {
                    return Err(e);
                },
            }
            i = i + 1;
        }
        Ok(results)
    }

    /// The verdict this validator gives on `cmd` in `shell`.
    pub open spec fn spec_outcome(&self, cmd: Seq<char>, shell: ShellType) -> ValidationView {
        outcome(
            self.spec_config().max_command_length,
            self.spec_config().safety_level,
            self.spec_rules(),
            self.spec_allowlist(),
            cmd,
            shell,
        )
    }
}

} // verus!
