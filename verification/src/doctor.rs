//! Environment diagnostics.
//!
//! Each check produces a `CheckResult`; `DiagnosticsSummary` aggregates
//! them into an exit code and a summary line.  The checks themselves are
//! decided here from the observed values (environment lookups, probe
//! output); the surrounding process performs the lookups and probes.

use colored::Colorize;
use vstd::prelude::*;

use crate::callback::{find_char_from, lemma_find_char_bounds};
use crate::strutil::{
    dec_str, lower_spec, lower_string, trim_spec, trim_string, u64_to_string, string_to_chars,
    chars_range_to_string,
};

verus! {

/// Status of a diagnostic check.
#[derive(Debug, Clone, PartialEq, Eq, Structural)]
pub enum CheckStatus {
    Pass,
    Warning,
    Error,
}

/// The exit-code contribution of each status.
pub open spec fn status_exit_spec(s: CheckStatus) -> int {
    match s {
        CheckStatus::Pass => 0,
        CheckStatus::Warning => 1,
        CheckStatus::Error => 2,
    }
}

/// The aligned ASCII marker of each status.
pub open spec fn status_marker_spec(s: CheckStatus) -> Seq<char> {
    match s {
        CheckStatus::Pass => "   [ok]"@,
        CheckStatus::Warning => " [warn]"@,
        CheckStatus::Error => "[error]"@,
    }
}

impl CheckStatus {
    /// Convert status to its exit-code contribution.
    pub fn exit_code(&self) -> (r: i32)
        ensures
            r == status_exit_spec(*self),
    {
        match self {
            CheckStatus::Pass => 0,
            CheckStatus::Warning => 1,
            CheckStatus::Error => 2,
        }
    }

    /// Convert status to its ASCII marker, right-aligned to a common
    /// width.
    pub fn as_marker(&self) -> (r: String)
        ensures
            r@ == status_marker_spec(*self),
    {
        match self {
            CheckStatus::Pass => String::from_str("   [ok]"),
            CheckStatus::Warning => String::from_str(" [warn]"),
            CheckStatus::Error => String::from_str("[error]"),
        }
    }

    /// Convert status to a colored marker: the plain marker, possibly
    /// wrapped in terminal color codes.
    pub fn as_marker_colored(&self) -> (r: String)
        ensures
            exists|a: Seq<char>, b: Seq<char>| r@ == a + status_marker_spec(*self) + b,
    {
        let marker = self.as_marker();
        proof {
            reveal_strlit("   [ok]");
            reveal_strlit(" [warn]");
            reveal_strlit("[error]");
        }
        let colored = match self {
            CheckStatus::Pass => paint_green(&marker),
            CheckStatus::Warning => paint_yellow(&marker),
            CheckStatus::Error => paint_red(&marker),
        };
        colored
    }
}

/// Whether a string holds no terminal escape character.
pub open spec fn escape_free(s: Seq<char>) -> bool {
    forall|i: int| 0 <= i < s.len() ==> s[i] != (27u8 as char)
}

/// Relies on colored's `Colorize::green`: with colors enabled the text is
/// wrapped in color and reset codes; with colors disabled it is returned
/// unchanged.  Whether colors are enabled depends on the terminal and the
/// environment, so only the wrapping shape is stated, for escape-free
/// input.
#[verifier::external_body]
fn paint_green(s: &String) -> (r: String)
    ensures
        escape_free(s@) ==> exists|a: Seq<char>, b: Seq<char>| r@ == a + s@ + b,
{
    s.as_str().green().to_string()
}

/// Relies on colored's `Colorize::yellow`; see `paint_green`.
#[verifier::external_body]
fn paint_yellow(s: &String) -> (r: String)
    ensures
        escape_free(s@) ==> exists|a: Seq<char>, b: Seq<char>| r@ == a + s@ + b,
{
    s.as_str().yellow().to_string()
}

/// Relies on colored's `Colorize::red`; see `paint_green`.
#[verifier::external_body]
fn paint_red(s: &String) -> (r: String)
    ensures
        escape_free(s@) ==> exists|a: Seq<char>, b: Seq<char>| r@ == a + s@ + b,
{
    s.as_str().red().to_string()
}

/// The view of one check result.
#[verifier::ext_equal]
pub ghost struct CheckResultView {
    pub name: Seq<char>,
    pub status: CheckStatus,
    pub message: Seq<char>,
    pub suggestion: Option<Seq<char>>,
}

/// Result of a single diagnostic check.
#[derive(Debug)]
pub struct CheckResult {
    pub name: String,
    pub status: CheckStatus,
    pub message: String,
    pub suggestion: Option<String>,
}

impl View for CheckResult {
    type V = CheckResultView;

    open spec fn view(&self) -> CheckResultView {
        CheckResultView {
            name: self.name@,
            status: self.status,
            message: self.message@,
            suggestion: crate::store::opt_view(&self.suggestion),
        }
    }
}

/// The rendered form of a check result under a marker: the marker, the
/// message, and the suggestion on its own indented line when there is one.
pub open spec fn format_with_marker_spec(marker: Seq<char>, r: CheckResultView) -> Seq<char> {
    marker + " "@ + r.message + (match r.suggestion {
        Some(s) => "\n       Suggestion: "@ + s,
        None => Seq::<char>::empty(),
    })
}

impl CheckResult {
    pub fn new(name: String, status: CheckStatus, message: String) -> (r: Self)
        ensures
            r@ == (CheckResultView { name: name@, status, message: message@, suggestion: None }),
    {
        CheckResult { name, status, message, suggestion: None }
    }

    pub fn with_suggestion(self, suggestion: String) -> (r: Self)
        ensures
            r@ == (CheckResultView { suggestion: Some(suggestion@), ..self@ }),
    {
        let r = CheckResult { suggestion: Some(suggestion), ..self };
        proof {
            assert(r@ =~= (CheckResultView { suggestion: Some(suggestion@), ..self@ }));
        }
        r
    }

    fn format_with_marker(&self, marker: String) -> (r: String)
        ensures
            r@ == format_with_marker_spec(marker@, self@),
    {
        let mut out = marker.concat(" ").concat(self.message.as_str());
        match &self.suggestion {
            Some(s) => {
                out = out.concat("\n       Suggestion: ").concat(s.as_str());
            },
            None => {},
        }
        proof {
            assert(out@ =~= format_with_marker_spec(marker@, self@));
        }
        out
    }

    /// Format the check result for display.
    pub fn format(&self) -> (r: String)
        ensures
            r@ == format_with_marker_spec(status_marker_spec(self.status), self@),
    {
        let marker = self.status.as_marker();
        self.format_with_marker(marker)
    }

    /// Format the check result with a colored marker.
    pub fn format_colored(&self) -> (r: String)
        ensures
            exists|a: Seq<char>, b: Seq<char>|
                r@ == format_with_marker_spec(a + status_marker_spec(self.status) + b, self@),
    {
        let marker = self.status.as_marker_colored();
        self.format_with_marker(marker)
    }
}

/// The largest exit-code contribution among the checks.
pub open spec fn summary_exit_spec(checks: Seq<CheckResult>) -> int
    decreases checks.len(),
{
    if checks.len() == 0 {
        0
    } else {
        let rest = summary_exit_spec(checks.drop_last());
        let last = status_exit_spec(checks.last().status);
        if last > rest {
            last
        } else {
            rest
        }
    }
}

/// How many checks carry the given status.
pub open spec fn count_status_spec(checks: Seq<CheckResult>, status: CheckStatus) -> int
    decreases checks.len(),
{
    if checks.len() == 0 {
        0
    } else {
        count_status_spec(checks.drop_last(), status) + (if checks.last().status == status {
            1int
        } else {
            0int
        })
    }
}

proof fn lemma_count_two_statuses(checks: Seq<CheckResult>, s1: CheckStatus, s2: CheckStatus)
    requires
        s1 != s2,
    ensures
        count_status_spec(checks, s1) + count_status_spec(checks, s2) <= checks.len(),
        0 <= count_status_spec(checks, s1),
        0 <= count_status_spec(checks, s2),
    decreases checks.len(),
{
    if checks.len() > 0 {
        lemma_count_two_statuses(checks.drop_last(), s1, s2);
    }
}

/// Summary of all diagnostic checks.
#[derive(Debug)]
pub struct DiagnosticsSummary {
    pub checks: Vec<CheckResult>,
}

/// The summary line: all passed, or how many are failing.
pub open spec fn summary_line_spec(checks: Seq<CheckResult>) -> Seq<char> {
    let total = checks.len() as int;
    let failed = count_status_spec(checks, CheckStatus::Error) + count_status_spec(
        checks,
        CheckStatus::Warning,
    );
    if failed == 0 {
        "\nSummary: All "@ + dec_str(total) + " checks passed."@
    } else {
        "\nSummary: "@ + dec_str(failed) + " checks failing out of "@ + dec_str(total)
            + ". See above for details."@
    }
}

impl DiagnosticsSummary {
    pub fn new(checks: Vec<CheckResult>) -> (r: Self)
        ensures
            r.checks == checks,
    {
        DiagnosticsSummary { checks }
    }

    /// The overall exit code: the worst status seen, 0 when empty.
    pub fn exit_code(&self) -> (r: i32)
        ensures
            r == summary_exit_spec(self.checks@),
    {
        let mut worst: i32 = 0;
        let mut i: usize = 0;
        while i < self.checks.len()
            invariant
                i <= self.checks@.len(),
                worst == summary_exit_spec(self.checks@.subrange(0, i as int)),
                0 <= worst <= 2,
            decreases self.checks@.len() - i,
        {
            let code = self.checks[i].status.exit_code();
            if code > worst {
                worst = code;
            }
            i += 1;
            proof {
                assert(self.checks@.subrange(0, i as int).drop_last() =~= self.checks@.subrange(
                    0,
                    i - 1,
                ));
            }
        }
        proof {
            assert(self.checks@.subrange(0, self.checks@.len() as int) =~= self.checks@);
        }
        worst
    }

    /// Count checks by status.
    pub fn count_by_status(&self, status: CheckStatus) -> (r: usize)
        ensures
            r == count_status_spec(self.checks@, status),
    {
        let mut count: usize = 0;
        let mut i: usize = 0;
        while i < self.checks.len()
            invariant
                i <= self.checks@.len(),
                count == count_status_spec(self.checks@.subrange(0, i as int), status),
                count <= i,
            decreases self.checks@.len() - i,
        {
            if self.checks[i].status == status {
                count += 1;
            }
            i += 1;
            proof {
                assert(self.checks@.subrange(0, i as int).drop_last() =~= self.checks@.subrange(
                    0,
                    i - 1,
                ));
            }
        }
        proof {
            assert(self.checks@.subrange(0, self.checks@.len() as int) =~= self.checks@);
        }
        count
    }

    /// Format the summary line for display.
    pub fn format_summary(&self) -> (r: String)
        ensures
            r@ == summary_line_spec(self.checks@),
    {
        let total = self.checks.len();
        let errors = self.count_by_status(CheckStatus::Error);
        let warnings = self.count_by_status(CheckStatus::Warning);
        proof {
            lemma_count_two_statuses(self.checks@, CheckStatus::Error, CheckStatus::Warning);
        }
        let failed = errors + warnings;
        if failed == 0 {
            let r = String::from_str("\nSummary: All ").concat(
                u64_to_string(total as u64).as_str(),
            ).concat(" checks passed.");
            proof {
                assert(r@ =~= summary_line_spec(self.checks@));
            }
            r
        } else {
            let r = String::from_str("\nSummary: ").concat(
                u64_to_string(failed as u64).as_str(),
            ).concat(" checks failing out of ").concat(u64_to_string(total as u64).as_str())
                .concat(". See above for details.");
            proof {
                assert(r@ =~= summary_line_spec(self.checks@));
            }
            r
        }
    }

    /// Format the summary line with color: the plain line, possibly
    /// wrapped in terminal color codes.
    pub fn format_summary_colored(&self) -> (r: String)
        ensures
            ({
                let line = summary_line_spec(self.checks@);
                escape_free(line) ==> exists|a: Seq<char>, b: Seq<char>|
                    r@ == "\n"@ + a + line.skip(1) + b
            }),
    {
        let line = self.format_summary();
        proof {
            reveal_strlit("\nSummary: All ");
            reveal_strlit("\nSummary: ");
            reveal_strlit("\n");
            assert(line@.len() >= 1);
        }
        // The line begins with its newline; color only the text after it.
        let v = string_to_chars(line.as_str());
        let body = chars_range_to_string(&v, 1, v.len());
        let total = self.checks.len();
        let errors = self.count_by_status(CheckStatus::Error);
        let warnings = self.count_by_status(CheckStatus::Warning);
        proof {
            lemma_count_two_statuses(self.checks@, CheckStatus::Error, CheckStatus::Warning);
            assert(errors + warnings <= total);
        }
        let painted = if errors + warnings == 0 {
            paint_green(&body)
        } else {
            paint_yellow(&body)
        };
        let r = String::from_str("\n").concat(painted.as_str());
        proof {
            let line_view = summary_line_spec(self.checks@);
            if escape_free(line_view) {
                assert(body@ =~= line_view.skip(1));
                assert(escape_free(body@));
                let (a, b) = choose|a: Seq<char>, b: Seq<char>| painted@ == a + body@ + b;
                assert(r@ =~= "\n"@ + a + line_view.skip(1) + b);
            }
        }
        r
    }
}

/// Configuration for an environment variable check.
pub struct EnvVarCheck {
    pub name: String,
    pub required: bool,
    pub suggestion: String,
    pub show_value: bool,
}

/// The check result for one environment variable lookup: set and
/// non-empty passes (echoing the value only when it may be shown); unset
/// or empty is an error when required, a warning otherwise, with the
/// configured suggestion attached.
pub open spec fn env_check_view(
    name: Seq<char>,
    required: bool,
    suggestion: Seq<char>,
    show_value: bool,
    value: Option<Seq<char>>,
) -> CheckResultView {
    let check_name = "env_var_"@ + lower_spec(name);
    let missing = CheckResultView {
        name: check_name,
        status: if required {
            CheckStatus::Error
        } else {
            CheckStatus::Warning
        },
        message: name + " missing"@,
        suggestion: Some(suggestion),
    };
    match value {
        Some(v) => if v.len() > 0 {
            CheckResultView {
                name: check_name,
                status: CheckStatus::Pass,
                message: if show_value {
                    name + "="@ + v
                } else {
                    name + " set (value hidden)"@
                },
                suggestion: None,
            }
        } else {
            missing
        },
        None => missing,
    }
}

/// Evaluate a single environment variable check against the looked-up
/// value.
pub fn evaluate_env_var(check: &EnvVarCheck, value: &Option<String>) -> (r: CheckResult)
    ensures
        r@ == env_check_view(
            check.name@,
            check.required,
            check.suggestion@,
            check.show_value,
            crate::store::opt_view(value),
        ),
{
    let check_name = String::from_str("env_var_").concat(
        lower_string(check.name.as_str()).as_str(),
    );
    proof {
        assert(check_name@ =~= "env_var_"@ + lower_spec(check.name@));
    }
    let set_value: Option<&String> = match value {
        Some(v) => {
            if v.as_str().unicode_len() > 0 {
                Some(v)
            } else {
                None
            }
        },
        None => None,
    };
    match set_value {
        Some(v) => {
            let message = if check.show_value {
                let m = check.name.clone().concat("=").concat(v.as_str());
                proof {
                    assert(m@ =~= check.name@ + "="@ + v@);
                }
                m
            } else {
                let m = check.name.clone().concat(" set (value hidden)");
                proof {
                    assert(m@ =~= check.name@ + " set (value hidden)"@);
                }
                m
            };
            let r = CheckResult::new(check_name, CheckStatus::Pass, message);
            proof {
                assert(r@ =~= env_check_view(
                    check.name@,
                    check.required,
                    check.suggestion@,
                    check.show_value,
                    crate::store::opt_view(value),
                ));
            }
            r
        },
        None => {
            let status = if check.required {
                CheckStatus::Error
            } else {
                CheckStatus::Warning
            };
            let message = check.name.clone().concat(" missing");
            proof {
                assert(message@ =~= check.name@ + " missing"@);
            }
            let r = CheckResult::new(check_name, status, message).with_suggestion(
                check.suggestion.clone(),
            );
            proof {
                assert(r@ =~= env_check_view(
                    check.name@,
                    check.required,
                    check.suggestion@,
                    check.show_value,
                    crate::store::opt_view(value),
                ));
            }
            r
        },
    }
}

/// The fixed table of environment variables the diagnostics inspect, in
/// order: the project number (required), the endpoint location, the
/// location, and the access token (whose value is never echoed).
pub fn env_var_checks() -> (r: Vec<EnvVarCheck>)
    ensures
        r@.len() == 4,
        forall|i: int| 0 <= i < 4 ==> {
            let t = env_var_checks_table_spec(i);
            (#[trigger] r@[i]).name@ == t.0 && r@[i].required == t.1 && r@[i].suggestion@ == t.2
                && r@[i].show_value == t.3
        },
{
    let mut r: Vec<EnvVarCheck> = Vec::new();
    r.push(
        EnvVarCheck {
            name: String::from_str("NBLM_PROJECT_NUMBER"),
            required: true,
            suggestion: String::from_str("export NBLM_PROJECT_NUMBER=<your-project-number>"),
            show_value: true,
        },
    );
    r.push(
        EnvVarCheck {
            name: String::from_str("NBLM_ENDPOINT_LOCATION"),
            required: false,
            suggestion: String::from_str("export NBLM_ENDPOINT_LOCATION=us-central1"),
            show_value: true,
        },
    );
    r.push(
        EnvVarCheck {
            name: String::from_str("NBLM_LOCATION"),
            required: false,
            suggestion: String::from_str("export NBLM_LOCATION=us-central1"),
            show_value: true,
        },
    );
    r.push(
        EnvVarCheck {
            name: String::from_str("NBLM_ACCESS_TOKEN"),
            required: false,
            suggestion: String::from_str("export NBLM_ACCESS_TOKEN=$(gcloud auth print-access-token)"),
            show_value: false,
        },
    );
    r
}

/// Run every environment variable check against the looked-up values,
/// given in the table's order.
pub fn check_environment_variables(values: &Vec<Option<String>>) -> (r: Vec<CheckResult>)
    requires
        values@.len() == 4,
    ensures
        r@.len() == 4,
        forall|i: int|
            0 <= i < 4 ==> (#[trigger] r@[i])@ == ({
                let t = env_var_checks_table_spec(i);
                env_check_view(t.0, t.1, t.2, t.3, crate::store::opt_view(&values@[i]))
            }),
{
    let table = env_var_checks();
    let mut r: Vec<CheckResult> = Vec::new();
    let mut i: usize = 0;
    while i < 4
        invariant
            values@.len() == 4,
            table@.len() == 4,
            forall|k: int| 0 <= k < 4 ==> {
                let t = env_var_checks_table_spec(k);
                (#[trigger] table@[k]).name@ == t.0 && table@[k].required == t.1 && table@[k]
                    .suggestion@ == t.2 && table@[k].show_value == t.3
            },
            i <= 4,
            r@.len() == i,
            forall|k: int|
                0 <= k < i ==> (#[trigger] r@[k])@ == ({
                    let t = env_var_checks_table_spec(k);
                    env_check_view(t.0, t.1, t.2, t.3, crate::store::opt_view(&values@[k]))
                }),
        decreases 4 - i,
    {
        r.push(evaluate_env_var(&table[i], &values[i]));
        i += 1;
    }
    r
}

/// The table entries of `env_var_checks`, as (name, required, suggestion,
/// show_value).
pub open spec fn env_var_checks_table_spec(i: int) -> (Seq<char>, bool, Seq<char>, bool) {
    if i == 0 {
        ("NBLM_PROJECT_NUMBER"@, true, "export NBLM_PROJECT_NUMBER=<your-project-number>"@, true)
    } else if i == 1 {
        ("NBLM_ENDPOINT_LOCATION"@, false, "export NBLM_ENDPOINT_LOCATION=us-central1"@, true)
    } else if i == 2 {
        ("NBLM_LOCATION"@, false, "export NBLM_LOCATION=us-central1"@, true)
    } else {
        (
            "NBLM_ACCESS_TOKEN"@,
            false,
            "export NBLM_ACCESS_TOKEN=$(gcloud auth print-access-token)"@,
            false,
        )
    }
}

/// Configuration for a command availability check.
pub struct CommandCheck {
    pub name: String,
    pub command: String,
    pub required: bool,
    pub suggestion: String,
}

/// The first line of a probe's output, trimmed.
pub open spec fn first_line_trimmed(s: Seq<char>) -> Seq<char> {
    trim_spec(s.subrange(0, find_char_from(s, 0, '\n')))
}

/// The check result for one command probe: a successful `--version` run
/// passes and echoes the first output line; a failed or absent command is
/// an error when required, a warning otherwise.
pub open spec fn command_check_view(
    name: Seq<char>,
    required: bool,
    suggestion: Seq<char>,
    version_output: Option<Seq<char>>,
) -> CheckResultView {
    let check_name = "command_"@ + name;
    match version_output {
        Some(out) => CheckResultView {
            name: check_name,
            status: CheckStatus::Pass,
            message: name + " is installed ("@ + first_line_trimmed(out) + ")"@,
            suggestion: None,
        },
        None => CheckResultView {
            name: check_name,
            status: if required {
                CheckStatus::Error
            } else {
                CheckStatus::Warning
            },
            message: name + " command not found"@,
            suggestion: Some(suggestion),
        },
    }
}

/// Evaluate a single command check against the probe's captured output
/// (`None` when the command failed to run or exited unsuccessfully).
pub fn evaluate_command(check: &CommandCheck, version_output: &Option<String>) -> (r: CheckResult)
    ensures
        r@ == command_check_view(
            check.name@,
            check.required,
            check.suggestion@,
            crate::store::opt_view(version_output),
        ),
{
    let check_name = String::from_str("command_").concat(check.name.as_str());
    proof {
        assert(check_name@ =~= "command_"@ + check.name@);
    }
    match version_output {
        Some(out) => {
            let v = string_to_chars(out.as_str());
            let nl = crate::callback::find_char(&v, 0, '\n');
            let first = chars_range_to_string(&v, 0, nl);
            let line = trim_string(first.as_str());
            let message = check.name.clone().concat(" is installed (").concat(line.as_str())
                .concat(")");
            proof {
                assert(message@ =~= check.name@ + " is installed ("@ + first_line_trimmed(out@)
                    + ")"@);
            }
            let r = CheckResult::new(check_name, CheckStatus::Pass, message);
            proof {
                assert(r@ =~= command_check_view(
                    check.name@,
                    check.required,
                    check.suggestion@,
                    crate::store::opt_view(version_output),
                ));
            }
            r
        },
        None => {
            let status = if check.required {
                CheckStatus::Error
            } else {
                CheckStatus::Warning
            };
            let message = check.name.clone().concat(" command not found");
            proof {
                assert(message@ =~= check.name@ + " command not found"@);
            }
            let r = CheckResult::new(check_name, status, message).with_suggestion(
                check.suggestion.clone(),
            );
            proof {
                assert(r@ =~= command_check_view(
                    check.name@,
                    check.required,
                    check.suggestion@,
                    crate::store::opt_view(version_output),
                ));
            }
            r
        },
    }
}

/// The fixed table of commands the diagnostics probe: only the `gcloud`
/// CLI, as an optional dependency.
pub fn command_checks() -> (r: Vec<CommandCheck>)
    ensures
        r@.len() == 1,
        r@[0].name@ == "gcloud"@ && r@[0].command@ == "gcloud"@ && !r@[0].required,
        r@[0].suggestion@
            == "Install Google Cloud CLI: https://cloud.google.com/sdk/docs/install"@,
{
    let mut r: Vec<CommandCheck> = Vec::new();
    r.push(
        CommandCheck {
            name: String::from_str("gcloud"),
            command: String::from_str("gcloud"),
            required: false,
            suggestion: String::from_str(
                "Install Google Cloud CLI: https://cloud.google.com/sdk/docs/install",
            ),
        },
    );
    r
}

/// Whether a space-separated scope string grants a target scope.
pub fn scopes_include(scope_string: &String, target: &str) -> (r: bool)
    ensures
        r == crate::oauth::split_scopes_spec(scope_string@).contains(target@),
{
    let words = crate::oauth::split_scopes(scope_string);
    let ghost split = crate::oauth::split_scopes_spec(scope_string@);
    let mut i: usize = 0;
    while i < words.len()
        invariant
            split == crate::oauth::split_scopes_spec(scope_string@),
            words@.map_values(|x: String| x@) == split,
            i <= words@.len(),
            forall|k: int| 0 <= k < i ==> split[k] != target@,
        decreases words@.len() - i,
    {
        if crate::strutil::str_equal(words[i].as_str(), target) {
            proof {
                assert(words@.map_values(|x: String| x@)[i as int] == words@[i as int]@);
                assert(split[i as int] == target@);
                assert(split.contains(target@));
            }
            return true;
        }
        i += 1;
    }
    proof {
        if split.contains(target@) {
            let w = choose|w: int| 0 <= w < split.len() && split[w] == target@;
            assert(split[w] != target@);
        }
    }
    false
}

/// What probing the access token's Drive scope observed: nothing to check
/// (no token set), a definite answer, or a failure message.
pub enum DriveScopeProbe {
    /// The access-token variable is unset or blank.
    NoToken,
    /// The token info endpoint answered; whether the Drive file scope was
    /// granted.
    Granted(bool),
    /// The scope could not be confirmed, with the failure's message.
    Unconfirmed(String),
}

/// The check rows for the Drive-scope probe: none without a token; a pass
/// when the scope is granted; a warning naming the missing scope or the
/// failure otherwise.
pub open spec fn drive_scope_checks_spec(probe: &DriveScopeProbe) -> Seq<CheckResultView> {
    match probe {
        DriveScopeProbe::NoToken => Seq::<CheckResultView>::empty(),
        DriveScopeProbe::Granted(true) => seq![
            CheckResultView {
                name: "drive_scope_nblm_access_token"@,
                status: CheckStatus::Pass,
                message: "NBLM_ACCESS_TOKEN grants Google Drive access"@,
                suggestion: None,
            },
        ],
        DriveScopeProbe::Granted(false) => seq![
            CheckResultView {
                name: "drive_scope_nblm_access_token"@,
                status: CheckStatus::Warning,
                message: "NBLM_ACCESS_TOKEN lacks Google Drive scope"@,
                suggestion: Some(
                    "Run `gcloud auth login --enable-gdrive-access` and refresh NBLM_ACCESS_TOKEN"@,
                ),
            },
        ],
        DriveScopeProbe::Unconfirmed(m) => seq![
            CheckResultView {
                name: "drive_scope_nblm_access_token"@,
                status: CheckStatus::Warning,
                message: "Could not confirm Google Drive scope for NBLM_ACCESS_TOKEN: "@ + m@,
                suggestion: None,
            },
        ],
    }
}

/// Validate what the Drive-scope probe observed of `NBLM_ACCESS_TOKEN`.
pub fn check_drive_access_token(probe: &DriveScopeProbe) -> (r: Vec<CheckResult>)
    ensures
        r@.map_values(|c: CheckResult| c@) == drive_scope_checks_spec(probe),
{
    let mut r: Vec<CheckResult> = Vec::new();
    match probe {
        DriveScopeProbe::NoToken => {
            proof {
                assert(r@.map_values(|c: CheckResult| c@) =~= drive_scope_checks_spec(probe));
            }
        },
        DriveScopeProbe::Granted(true) => {
            r.push(
                CheckResult::new(
                    String::from_str("drive_scope_nblm_access_token"),
                    CheckStatus::Pass,
                    String::from_str("NBLM_ACCESS_TOKEN grants Google Drive access"),
                ),
            );
            proof {
                assert(r@.map_values(|c: CheckResult| c@) =~= drive_scope_checks_spec(probe));
            }
        },
        DriveScopeProbe::Granted(false) => {
            r.push(
                CheckResult::new(
                    String::from_str("drive_scope_nblm_access_token"),
                    CheckStatus::Warning,
                    String::from_str("NBLM_ACCESS_TOKEN lacks Google Drive scope"),
                ).with_suggestion(
                    String::from_str(
                        "Run `gcloud auth login --enable-gdrive-access` and refresh NBLM_ACCESS_TOKEN",
                    ),
                ),
            );
            proof {
                assert(r@.map_values(|c: CheckResult| c@) =~= drive_scope_checks_spec(probe));
            }
        },
        DriveScopeProbe::Unconfirmed(m) => {
            let message = String::from_str(
                "Could not confirm Google Drive scope for NBLM_ACCESS_TOKEN: ",
            ).concat(m.as_str());
            proof {
                assert(message@ =~= "Could not confirm Google Drive scope for NBLM_ACCESS_TOKEN: "@
                    + m@);
            }
            r.push(
                CheckResult::new(
                    String::from_str("drive_scope_nblm_access_token"),
                    CheckStatus::Warning,
                    message,
                ),
            );
            proof {
                assert(r@.map_values(|c: CheckResult| c@) =~= drive_scope_checks_spec(probe));
            }
        },
    }
    r
}

/// Run every command availability check against the probes' captured
/// outputs, given in the table's order.
pub fn check_commands(version_outputs: &Vec<Option<String>>) -> (r: Vec<CheckResult>)
    requires
        version_outputs@.len() == 1,
    ensures
        r@.len() == 1,
        r@[0]@ == command_check_view(
            "gcloud"@,
            false,
            "Install Google Cloud CLI: https://cloud.google.com/sdk/docs/install"@,
            crate::store::opt_view(&version_outputs@[0]),
        ),
{
    let table = command_checks();
    let mut r: Vec<CheckResult> = Vec::new();
    r.push(evaluate_command(&table[0], &version_outputs[0]));
    r
}

} // verus!
