//! The shell tool: what is checked before a command runs, and how its
//! output is reported.

use vstd::prelude::*;
use crate::text::{utf8_len, utf8_width, chars_of, decimal, decimal_exec, is_ws, is_ws_exec, lower_of, lowercase, owned, str_is, string_of};
use crate::file_rules::{count_lines, line_count};
use crate::tools::ValidationResult;

verus! {

/// The longest a command may be given to run, in milliseconds.
pub const MAX_TIMEOUT_MS: u64 = 600000;

/// How long a command runs when no timeout is given, in milliseconds.
pub const DEFAULT_TIMEOUT_MS: u64 = 120000;

/// The most bytes (UTF-8) of each output stream that are reported.
pub const MAX_OUTPUT_LENGTH: usize = 30000;

/// What the model asks the shell tool to run.
#[derive(Debug, Clone, PartialEq, Eq)]
pub struct BashInput {
    pub command: String,
    pub timeout: Option<u64>,
}

/// What a command produced.
#[derive(Debug, Clone, PartialEq, Eq)]
pub struct BashOutput {
    pub stdout: String,
    pub stdout_lines: usize,
    pub stderr: String,
    pub stderr_lines: usize,
    pub exit_code: i32,
    pub interrupted: bool,
}

/// The shell tool.
#[derive(Debug, Clone, Copy)]
pub struct BashTool;

pub open spec fn is_separator(c: char) -> bool {
    c == '|' || c == '&' || c == ';' || c == '\n'
}

/// The first position at or after `i` whose character is not white space.
pub open spec fn skip_ws(s: Seq<char>, i: int) -> int
    decreases s.len() - i,
{
    if i < 0 || i >= s.len() {
        s.len() as int
    } else if is_ws(s[i]) {
        skip_ws(s, i + 1)
    } else {
        i
    }
}

/// The first position at or after `i` that ends a word: white space or a
/// command separator.
pub open spec fn word_end(s: Seq<char>, i: int) -> int
    decreases s.len() - i,
{
    if i < 0 || i >= s.len() {
        s.len() as int
    } else if is_ws(s[i]) || is_separator(s[i]) {
        i
    } else {
        word_end(s, i + 1)
    }
}

/// The program a command line starts with: the first word of its first
/// segment, segments being separated by `|`, `&`, `;` and line feeds.
pub open spec fn base_command(cmd: Seq<char>) -> Option<Seq<char>> {
    let a = skip_ws(cmd, 0);
    let e = word_end(cmd, a);
    if e > a { Some(cmd.subrange(a, e)) } else { None }
}

/// Programs that fetch from the network or browse, which the tool refuses.
pub open spec fn is_banned(s: Seq<char>) -> bool {
    s == "alias"@ || s == "curl"@ || s == "curlie"@ || s == "wget"@ || s == "axel"@ || s == "aria2c"@
        || s == "nc"@ || s == "telnet"@ || s == "lynx"@ || s == "w3m"@ || s == "links"@ || s == "httpie"@
        || s == "xh"@ || s == "http-prompt"@ || s == "chrome"@ || s == "firefox"@ || s == "safari"@
}

/// Why a command is refused before it runs.
#[derive(Debug, Clone, PartialEq, Eq)]
pub enum BashRejection {
    TimeoutTooLarge,
    Banned { command: String },
}

/// The check that runs before a command: the timeout must be within the
/// ceiling, and the leading program, in lower case, must not be denied.
pub open spec fn bash_check(cmd: Seq<char>, timeout: Option<u64>) -> Option<Option<Seq<char>>> {
    if timeout matches Some(t) && t > MAX_TIMEOUT_MS {
        Some(None)
    } else if base_command(cmd) matches Some(b) && is_banned(lower_of(b)) {
        Some(Some(base_command(cmd).unwrap()))
    } else {
        None
    }
}

/// A command that passed the check, with the timeout it runs under.
#[derive(Debug, Clone, PartialEq, Eq)]
pub struct RunPlan {
    pub command: String,
    pub timeout_ms: u64,
}

/// The shell deny-list and timeout ceiling are enforced at validation: a
/// command whose leading program is denied, or whose timeout exceeds the
/// ceiling, is refused, and so yields no plan to run.
pub proof fn lemma_shell_refusals(cmd: Seq<char>, timeout: Option<u64>)
    ensures
        (timeout matches Some(t) && t > MAX_TIMEOUT_MS) ==> bash_check(cmd, timeout) == Some(None::<Seq<char>>),
        (base_command(cmd) matches Some(b) && is_banned(lower_of(b))) ==> bash_check(cmd, timeout) is Some,
{
}

fn skip_ws_exec(s: &[char], i: usize) -> (r: usize)
    requires
        i <= s.len(),
    ensures
        r == skip_ws(s@, i as int),
        i <= r <= s.len(),
{
    let mut j = i;
    while j < s.len() && is_ws_exec(s[j])
        invariant
            i <= j <= s.len(),
            skip_ws(s@, i as int) == skip_ws(s@, j as int),
        decreases s.len() - j,
    {
        j = j + 1;
    }
    j
}

fn word_end_exec(s: &[char], i: usize) -> (r: usize)
    requires
        i <= s.len(),
    ensures
        r == word_end(s@, i as int),
        i <= r <= s.len(),
{
    let mut j = i;
    while j < s.len() && !(is_ws_exec(s[j]) || s[j] == '|' || s[j] == '&' || s[j] == ';' || s[j] == '\n')
        invariant
            i <= j <= s.len(),
            word_end(s@, i as int) == word_end(s@, j as int),
        decreases s.len() - j,
    {
        j = j + 1;
    }
    j
}

fn is_banned_exec(s: &[char]) -> (r: bool)
    ensures
        r == is_banned(s@),
{
    str_is(s, "alias") || str_is(s, "curl") || str_is(s, "curlie") || str_is(s, "wget") || str_is(s, "axel")
        || str_is(s, "aria2c") || str_is(s, "nc") || str_is(s, "telnet") || str_is(s, "lynx") || str_is(s, "w3m")
        || str_is(s, "links") || str_is(s, "httpie") || str_is(s, "xh") || str_is(s, "http-prompt")
        || str_is(s, "chrome") || str_is(s, "firefox") || str_is(s, "safari")
}

/// How many leading characters of `s` fit in `budget` UTF-8 bytes.
pub open spec fn prefix_within(s: Seq<char>, budget: int) -> nat
    decreases s.len(),
{
    if s.len() == 0 || utf8_width(s[0]) > budget {
        0
    } else {
        1 + prefix_within(s.drop_first(), budget - utf8_width(s[0]))
    }
}

/// The reported form of one output stream: beyond the byte ceiling, the
/// longest run of whole characters within it, then a marker that gives the
/// full length in bytes.
pub open spec fn formatted_output(s: Seq<char>) -> Seq<char> {
    if utf8_len(s) > MAX_OUTPUT_LENGTH {
        s.take(prefix_within(s, MAX_OUTPUT_LENGTH as int) as int) + "...\n\n<output truncated - showed first 30000 of "@
            + decimal(utf8_len(s)) + " chars>"@
    } else {
        s
    }
}

proof fn lemma_prefix_within_bound(s: Seq<char>, budget: int)
    ensures
        prefix_within(s, budget) <= s.len(),
    decreases s.len(),
{
    if !(s.len() == 0 || utf8_width(s[0]) > budget) {
        lemma_prefix_within_bound(s.drop_first(), budget - utf8_width(s[0]));
    }
}

/// How many leading characters fit in `budget` bytes.
fn prefix_within_exec(c: &[char], budget: u64) -> (r: usize)
    ensures
        r == prefix_within(c@, budget as int),
        r <= c@.len(),
{
    let mut i: usize = 0;
    let mut left: u64 = budget;
    assert(c@.subrange(0, c@.len() as int) =~= c@);
    while i < c.len()
        invariant
            i <= c.len(),
            left <= budget,
            prefix_within(c@, budget as int) == i + prefix_within(c@.subrange(i as int, c@.len() as int), left as int),
        decreases c.len() - i,
    {
        let ghost rest = c@.subrange(i as int, c@.len() as int);
        let code = c[i] as u32;
        let w: u64 = if code < 0x80 { 1 } else if code < 0x800 { 2 } else if code < 0x10000 { 3 } else { 4 };
        assert(rest[0] == c@[i as int]);
        assert(w == utf8_width(rest[0]));
        if w > left {
            return i;
        }
        assert(rest.drop_first() =~= c@.subrange(i + 1, c@.len() as int));
        left = left - w;
        i = i + 1;
    }
    i
}

/// The decimal form of a signed number.
pub open spec fn signed_decimal(n: int) -> Seq<char> {
    if n < 0 { seq!['-'] + decimal((-n) as nat) } else { decimal(n as nat) }
}

/// The text of a command's result: standard output, then standard error on
/// a line of its own, then the exit code where it is not zero.
pub open spec fn rendered_result(stdout: Seq<char>, stderr: Seq<char>, exit_code: i32) -> Seq<char> {
    let a = if stderr.len() > 0 {
        if stdout.len() > 0 { stdout + seq!['\n'] + stderr } else { stderr }
    } else {
        stdout
    };
    if exit_code != 0 { a + "\nExit code: "@ + signed_decimal(exit_code as int) } else { a }
}

impl BashTool {
    /// The program a command line starts with.
    pub fn extract_base_command(command: &str) -> (r: Option<String>)
        ensures
            match r {
                Some(s) => base_command(command@) == Some(s@),
                None => base_command(command@) is None,
            },
    {
        let c = chars_of(command);
        let a = skip_ws_exec(c.as_slice(), 0);
        let e = word_end_exec(c.as_slice(), a);
        if e > a {
            Some(string_of(&c[a..e]))
        } else {
            None
        }
    }

    /// Decides whether a command may run, and under which timeout.
    pub fn check(input: &BashInput) -> (r: Result<RunPlan, BashRejection>)
        ensures
            match bash_check(input.command@, input.timeout) {
                None => r matches Ok(p) && p.command@ == input.command@ && p.timeout_ms == match input.timeout {
                    Some(t) => t,
                    None => DEFAULT_TIMEOUT_MS,
                },
                Some(None) => r == Err::<RunPlan, BashRejection>(BashRejection::TimeoutTooLarge),
                Some(Some(b)) => r matches Err(BashRejection::Banned { command }) && command@ == b,
            },
    {
        match input.timeout {
            Some(t) => {
                if t > MAX_TIMEOUT_MS {
                    return Err(BashRejection::TimeoutTooLarge);
                }
            },
            None => {},
        }
        match BashTool::extract_base_command(input.command.as_str()) {
            Some(b) => {
                let lower = lowercase(b.as_str());
                let l = chars_of(lower.as_str());
                if is_banned_exec(l.as_slice()) {
                    return Err(BashRejection::Banned { command: b });
                }
            },
            None => {},
        }
        let timeout_ms = match input.timeout {
            Some(t) => t,
            None => DEFAULT_TIMEOUT_MS,
        };
        Ok(RunPlan { command: input.command.clone(), timeout_ms })
    }

    /// The validation verdict for a command, with the refusal's text.
    pub fn validate_input(input: &BashInput) -> (r: ValidationResult)
        ensures
            r.is_valid == (bash_check(input.command@, input.timeout) is None),
            r.is_valid <==> r.message is None,
            bash_check(input.command@, input.timeout) == Some(None::<Seq<char>>) ==> (r.message matches Some(m)
                && m@ == "Timeout cannot exceed 600000 milliseconds"@),
            bash_check(input.command@, input.timeout) matches Some(Some(b)) ==> (r.message matches Some(m)
                && m@ == "Command '"@ + b + "' is not allowed for security reasons"@),
    {
        match BashTool::check(input) {
            Ok(_) => ValidationResult::ok(),
            Err(BashRejection::TimeoutTooLarge) => ValidationResult::error(owned("Timeout cannot exceed 600000 milliseconds")),
            Err(BashRejection::Banned { command }) => {
                let mut m = owned("Command '");
                m.append(command.as_str());
                m.append("' is not allowed for security reasons");
                ValidationResult::error(m)
            },
        }
    }

    /// One output stream as reported, with its number of lines (counted
    /// before any cut).
    pub fn format_output(output: String) -> (r: (String, usize))
        ensures
            r.0@ == formatted_output(output@),
            r.1 == line_count(output@),
    {
        let lines = count_lines(output.as_str());
        let c = chars_of(output.as_str());
        let bytes = crate::text::utf8_byte_len(output.as_str());
        if bytes > MAX_OUTPUT_LENGTH as u128 {
            let k = prefix_within_exec(c.as_slice(), MAX_OUTPUT_LENGTH as u64);
            let mut t = string_of(&c[0..k]);
            assert(c@.subrange(0, k as int) =~= c@.take(k as int));
            t.append("...\n\n<output truncated - showed first 30000 of ");
            let n = crate::text::decimal_wide(bytes);
            t.append(n.as_str());
            t.append(" chars>");
            (t, lines)
        } else {
            (output, lines)
        }
    }

    /// The output of a finished or interrupted command. A command stopped
    /// at its timeout is a normal result, flagged as interrupted.
    pub fn finish(stdout: String, stderr: String, exit_code: Option<i32>, timed_out: bool) -> (r: BashOutput)
        ensures
            r.stdout@ == formatted_output(stdout@),
            r.stdout_lines == line_count(stdout@),
            r.stderr@ == formatted_output(stderr@),
            r.stderr_lines == line_count(stderr@),
            r.interrupted == timed_out,
            r.exit_code == if timed_out {
                -1i32
            } else {
                match exit_code {
                    Some(c) => c,
                    None => -1i32,
                }
            },
    {
        let (out, out_lines) = BashTool::format_output(stdout);
        let (err, err_lines) = BashTool::format_output(stderr);
        let code: i32 = if timed_out {
            -1
        } else {
            match exit_code {
                Some(c) => c,
                None => -1,
            }
        };
        BashOutput {
            stdout: out,
            stdout_lines: out_lines,
            stderr: err,
            stderr_lines: err_lines,
            exit_code: code,
            interrupted: timed_out,
        }
    }

    /// The text of a command's result.
    pub fn render_result(output: &BashOutput) -> (r: String)
        ensures
            r@ == rendered_result(output.stdout@, output.stderr@, output.exit_code),
    {
        let mut r = output.stdout.clone();
        let out_len = chars_of(output.stdout.as_str()).len();
        let err_len = chars_of(output.stderr.as_str()).len();
        if err_len > 0 {
            if out_len > 0 {
                crate::text::push_char(&mut r, '\n');
            }
            r.append(output.stderr.as_str());
        }
        if output.exit_code != 0 {
            r.append("\nExit code: ");
            let code = output.exit_code;
            if code < 0 {
                crate::text::push_char(&mut r, '-');
                let mag: u64 = if code == i32::MIN { 2147483648u64 } else { (-code) as u64 };
                let d = decimal_exec(mag as usize);
                r.append(d.as_str());
            } else {
                let d = decimal_exec(code as usize);
                r.append(d.as_str());
            }
        }
        r
    }
}


/// The position just after the last character before `n` that is not white
/// space, or 0.
pub open spec fn ws_end(s: Seq<char>, n: int) -> int
    decreases n,
{
    if n <= 0 || n > s.len() {
        0
    } else if is_ws(s[n - 1]) {
        ws_end(s, n - 1)
    } else {
        n
    }
}

/// `s` without white space at either end.
pub open spec fn trimmed(s: Seq<char>) -> Seq<char> {
    let a = skip_ws(s, 0);
    let b = ws_end(s, s.len() as int);
    if a < b { s.subrange(a, b) } else { Seq::empty() }
}

/// The marker added for a command stopped at its timeout.
pub open spec fn aborted_marker() -> Seq<char> {
    "<error>Command was aborted before completion</error>"@
}

pub open spec fn append_part(acc: Seq<char>, part: Seq<char>) -> Seq<char> {
    if part.len() == 0 { acc } else if acc.len() == 0 { part } else { acc + seq!['\n'] + part }
}

/// What the model is told of a command: the trimmed output, the trimmed
/// error output, and the abort marker, each on its own line where present;
/// nothing when all are empty.
pub open spec fn bash_report(o: BashOutput) -> Option<Seq<char>> {
    let a = append_part(append_part(Seq::empty(), trimmed(o.stdout@)), trimmed(o.stderr@));
    let b = if o.interrupted { append_part(a, aborted_marker()) } else { a };
    if b.len() == 0 { None } else { Some(b) }
}

fn ws_end_exec(s: &[char], n: usize) -> (r: usize)
    requires
        n <= s.len(),
    ensures
        r == ws_end(s@, n as int),
        r <= n,
{
    let mut k = n;
    while k > 0 && is_ws_exec(s[k - 1])
        invariant
            k <= n,
            n <= s.len(),
            ws_end(s@, n as int) == ws_end(s@, k as int),
        decreases k,
    {
        k = k - 1;
    }
    k
}

/// `s` without white space at either end.
pub fn trim_text(s: &str) -> (r: String)
    ensures
        r@ == trimmed(s@),
{
    let c = chars_of(s);
    let a = skip_ws_exec(c.as_slice(), 0);
    let b = ws_end_exec(c.as_slice(), c.len());
    if a < b {
        string_of(&c[a..b])
    } else {
        String::new()
    }
}

fn append_part_exec(acc: &mut String, part: &String)
    ensures
        final(acc)@ == append_part(old(acc)@, part@),
{
    let pl = chars_of(part.as_str()).len();
    let al = chars_of(acc.as_str()).len();
    if pl == 0 {
        return;
    }
    if al > 0 {
        crate::text::push_char(acc, '\n');
    }
    acc.append(part.as_str());
}

impl BashTool {
    /// What the model is told of a command.
    pub fn result_for_assistant(output: &BashOutput) -> (r: Option<String>)
        ensures
            match bash_report(*output) {
                Some(t) => r matches Some(s) && s@ == t,
                None => r is None,
            },
    {
        let mut acc = String::new();
        let out = trim_text(output.stdout.as_str());
        append_part_exec(&mut acc, &out);
        let err = trim_text(output.stderr.as_str());
        append_part_exec(&mut acc, &err);
        if output.interrupted {
            let marker = owned("<error>Command was aborted before completion</error>");
            append_part_exec(&mut acc, &marker);
        }
        if chars_of(acc.as_str()).len() == 0 {
            None
        } else {
            Some(acc)
        }
    }
}

} // verus!
