//! The `systemctl` invocations the program makes and how their output is
//! read. Running the process is left to the caller: each invocation is
//! described by its arguments, and each reading function takes what the
//! process gave back.

use vstd::prelude::*;

use crate::systemd::types::{Enabled, Unit, UnitView, units_view};
use crate::text::{
    chars_of, is_gap, is_token, join_from, join_words, lemma_join_no_newline, lemma_line_len_at,
    lemma_line_len_props, lemma_lines_single, lemma_no_newline_concat, lemma_token_no_newline,
    lemma_words_are_tokens, lemma_words_of_join, lemma_words_token_gap, line_len, lines,
    no_newline, split_words, strings_view, trim, trim_str, words,
};

verus! {

/// An error from talking to `systemctl`, with the text shown to the user.
#[derive(Clone, Debug)]
pub struct SystemctlError {
    pub message: String,
}

/// What a finished `systemctl` process gave back.
#[derive(Clone, Debug)]
pub struct CommandOutput {
    /// Whether it exited with status zero.
    pub success: bool,
    pub stdout: Vec<u8>,
    pub stderr: Vec<u8>,
}

/// A call of `systemctl`, given by the arguments that follow the program
/// name.
#[derive(Clone, Debug)]
pub struct Invocation {
    pub args: Vec<String>,
}

impl Invocation {
    pub open spec fn args_view(&self) -> Seq<Seq<char>> {
        strings_view(self.args@)
    }
}

/// Name for the text that `String::from_utf8_lossy` makes of `bytes`.
pub uninterp spec fn utf8_lossy(bytes: Seq<u8>) -> Seq<char>;

/// `String::from_utf8_lossy` (made owned): the text of `bytes`, each
/// invalid UTF-8 sequence replaced by U+FFFD. The contract names the result
/// and states that valid UTF-8 is decoded as it stands; how invalid
/// sequences are replaced is left unsaid.
#[verifier::external_body]
fn from_utf8_lossy(bytes: &Vec<u8>) -> (s: String)
    ensures
        s@ == utf8_lossy(bytes@),
        vstd::utf8::valid_utf8(bytes@) ==> s@ == vstd::utf8::decode_utf8(bytes@),
{
    String::from_utf8_lossy(bytes.as_slice()).into_owned()
}

fn error_of(message: String) -> (e: SystemctlError)
    ensures
        e.message@ == message@,
{
    SystemctlError { message }
}

/// The unit that one line of `systemctl list-units --plain --no-legend`
/// output describes: its first four words are the name and the load, active
/// and sub states, the remaining words joined by single spaces are the
/// description. A line of fewer than four words (blank ones included)
/// describes none.
pub open spec fn unit_of_line(line: Seq<char>) -> Option<UnitView> {
    let w = words(line);
    if w.len() < 4 {
        None
    } else {
        Some(
            UnitView {
                name: w[0],
                load_state: w[1],
                active_state: w[2],
                sub_state: w[3],
                description: join_words(w.skip(4)),
            },
        )
    }
}

/// The units that the lines `ls` describe, in order.
pub open spec fn units_of_lines(ls: Seq<Seq<char>>) -> Seq<UnitView>
    decreases ls.len(),
{
    if ls.len() == 0 {
        seq![]
    } else {
        let rest = units_of_lines(ls.drop_first());
        match unit_of_line(ls[0]) {
            Some(u) => seq![u] + rest,
            None => rest,
        }
    }
}

/// The units that `systemctl list-units` output `s` lists.
pub open spec fn parse_units(s: Seq<char>) -> Seq<UnitView> {
    units_of_lines(lines(s))
}

/// Parses the output of `systemctl list-units --plain --no-legend`. Columns
/// may be aligned with runs of spaces; the description keeps its words,
/// joined by single spaces. Lines that do not hold four words are skipped;
/// no input is refused.
pub fn parse_list_units(output: &str) -> (res: Result<Vec<Unit>, SystemctlError>)
    ensures
        res matches Ok(units) && units_view(units@) == parse_units(output@),
{
    let chars = chars_of(output);
    let n = chars.len();
    let mut units: Vec<Unit> = Vec::new();
    let mut i: usize = 0;
    assert(chars@.skip(0) =~= chars@);
    assert(units_view(units@) + parse_units(output@) =~= parse_units(output@));
    while i < n
        invariant
            i <= n == chars.len(),
            chars@ == output@,
            parse_units(output@) == units_view(units@) + units_of_lines(
                lines(chars@.skip(i as int)),
            ),
        decreases n - i,
    {
        let mut e = i;
        while e < n && chars[e] != '\n'
            invariant
                i <= e <= n == chars.len(),
                forall|m: int| i <= m < e ==> #[trigger] chars@[m] != '\n',
            decreases n - e,
        {
            e += 1;
        }
        let ghost t = chars@.skip(i as int);
        proof {
            assert forall|m: int| 0 <= m < e - i implies #[trigger] t[m] != '\n' by {
                assert(t[m] == chars@[i + m]);
            }
            if e < n {
                assert(t[e - i] == chars@[e as int]);
            }
            lemma_line_len_at(t, e - i);
            assert(t.take(e - i) =~= chars@.subrange(i as int, e as int));
            if e < n {
                assert(t.skip(e - i + 1) =~= chars@.skip(e + 1));
            } else {
                assert(t =~= chars@.subrange(i as int, e as int));
            }
        }
        let ghost line = chars@.subrange(i as int, e as int);
        let ghost rest = chars@.skip(if e < n { e + 1 } else { n as int });
        proof {
            let ls = lines(t);
            if e < n {
                assert(ls == seq![line] + lines(rest));
            } else {
                assert(rest =~= Seq::<char>::empty());
                assert(lines(rest) =~= Seq::<Seq<char>>::empty());
                assert(ls =~= seq![line] + lines(rest));
            }
            assert(ls.drop_first() =~= lines(rest));
            assert(ls[0] == line);
        }
        let ws = split_words(&chars, i, e);
        let ghost before = units_view(units@);
        if ws.len() >= 4 {
            let unit = Unit {
                name: ws[0].clone(),
                load_state: ws[1].clone(),
                active_state: ws[2].clone(),
                sub_state: ws[3].clone(),
                description: join_from(&ws, 4),
            };
            units.push(unit);
            assert(units_view(units@) =~= before.push(unit@));
        }
        if e < n {
            i = e + 1;
        } else {
            i = n;
        }
        assert(parse_units(output@) =~= units_view(units@) + units_of_lines(
            lines(chars@.skip(i as int)),
        ));
    }
    assert(parse_units(output@) =~= units_view(units@));
    Ok(units)
}


/// The text of a result: what `Ok` holds, or the message of the error.
pub open spec fn text_result(r: Result<String, SystemctlError>) -> Result<Seq<char>, Seq<char>> {
    match r {
        Ok(s) => Ok(s@),
        Err(e) => Err(e.message@),
    }
}

/// An owned copy of `s`.
fn owned(s: &str) -> (r: String)
    ensures
        r@ == s@,
{
    String::from_str(s)
}

fn args_of(words: &[&str]) -> (args: Vec<String>)
    ensures
        strings_view(args@) == words@.map_values(|w: &str| w@),
{
    let mut args: Vec<String> = Vec::new();
    let mut i: usize = 0;
    while i < words.len()
        invariant
            i <= words@.len(),
            strings_view(args@) == words@.take(i as int).map_values(|w: &str| w@),
        decreases words.len() - i,
    {
        args.push(owned(words[i]));
        assert(words@.take(i + 1).map_values(|w: &str| w@) =~= words@.take(i as int).map_values(
            |w: &str| w@,
        ).push(words@[i as int]@));
        assert(strings_view(args@) =~= words@.take(i + 1).map_values(|w: &str| w@));
        i += 1;
    }
    assert(words@.take(words@.len() as int) =~= words@);
    args
}

/// The arguments of the `list-units` call, optionally limited to one unit
/// type (such as `service`, `socket` or `timer`).
pub open spec fn list_units_args(unit_type: Option<Seq<char>>) -> Seq<Seq<char>> {
    seq!["list-units"@, "--all"@, "--no-pager"@, "--no-legend"@, "--plain"@] + match unit_type {
        Some(t) => seq!["--type"@, t],
        None => seq![],
    }
}

/// The invocation that lists all units, optionally only those of one type
/// (e.g. `"service"`, `"socket"`, `"timer"`).
pub fn list_units(unit_type: Option<&str>) -> (inv: Invocation)
    ensures
        inv.args_view() == list_units_args(
            match unit_type {
                Some(t) => Some(t@),
                None => None,
            },
        ),
{
    let mut args = args_of(&["list-units", "--all", "--no-pager", "--no-legend", "--plain"]);
    let ghost base = strings_view(args@);
    assert(base =~= seq!["list-units"@, "--all"@, "--no-pager"@, "--no-legend"@, "--plain"@]);
    if let Some(t) = unit_type {
        args.push(owned("--type"));
        args.push(owned(t));
        assert(strings_view(args@) =~= base + seq!["--type"@, t@]);
    } else {
        assert(strings_view(args@) =~= base + Seq::<Seq<char>>::empty());
    }
    let inv = Invocation { args };
    assert(inv.args_view() =~= list_units_args(
        match unit_type {
            Some(t) => Some(t@),
            None => None,
        },
    ));
    inv
}

/// What a finished `systemctl` process gave back, decoded as text.
#[derive(Clone, Debug)]
pub struct TextOutput {
    /// Whether it exited with status zero.
    pub success: bool,
    pub stdout: String,
    pub stderr: String,
}

/// The text of a [`TextOutput`].
pub struct OutputText {
    pub success: bool,
    pub stdout: Seq<char>,
    pub stderr: Seq<char>,
}

impl View for TextOutput {
    type V = OutputText;

    open spec fn view(&self) -> OutputText {
        OutputText { success: self.success, stdout: self.stdout@, stderr: self.stderr@ }
    }
}

/// The text of what a process gave back, if it could be started.
pub open spec fn decoded(out: Option<&CommandOutput>) -> Option<OutputText> {
    match out {
        None => None,
        Some(o) => Some(
            OutputText {
                success: o.success,
                stdout: utf8_lossy(o.stdout@),
                stderr: utf8_lossy(o.stderr@),
            },
        ),
    }
}

/// The view of an optional text output.
pub open spec fn text_view(out: Option<&TextOutput>) -> Option<OutputText> {
    match out {
        None => None,
        Some(t) => Some(t@),
    }
}

/// Decodes the output streams of a process as UTF-8, replacing what is
/// not valid.
pub fn decode(o: &CommandOutput) -> (t: TextOutput)
    ensures
        Some(t@) == decoded(Some(o)),
{
    TextOutput {
        success: o.success,
        stdout: from_utf8_lossy(&o.stdout),
        stderr: from_utf8_lossy(&o.stderr),
    }
}

/// What a plain call gives: its standard output when it exited with status
/// zero, else an error holding its trimmed standard error (`None` stands for
/// a process that could not be started).
pub open spec fn run_outcome(out: Option<OutputText>) -> Result<Seq<char>, Seq<char>> {
    match out {
        None => Err("failed to spawn systemctl"@),
        Some(o) => if o.success {
            Ok(o.stdout)
        } else {
            Err("systemctl failed: "@ + trim(o.stderr))
        },
    }
}

/// Reads the text that a plain call gave back.
pub fn run_text_result(out: Option<&TextOutput>) -> (res: Result<String, SystemctlError>)
    ensures
        text_result(res) == run_outcome(text_view(out)),
{
    match out {
        None => Err(error_of(owned("failed to spawn systemctl"))),
        Some(o) => {
            if !o.success {
                let mut m = owned("systemctl failed: ");
                let t = trim_str(o.stderr.as_str());
                m.append(t.as_str());
                Err(error_of(m))
            } else {
                Ok(o.stdout.clone())
            }
        },
    }
}

/// Reads what a plain call gave back; `None` stands for a process that
/// could not be started.
pub fn run_result(out: Option<&CommandOutput>) -> (res: Result<String, SystemctlError>)
    ensures
        text_result(res) == run_outcome(decoded(out)),
{
    match out {
        None => run_text_result(None),
        Some(o) => {
            let t = decode(o);
            run_text_result(Some(&t))
        },
    }
}

/// The units that the `list-units` call lists, read from what it gave back.
pub fn list_units_result(out: Option<&CommandOutput>) -> (res: Result<Vec<Unit>, SystemctlError>)
    ensures
        match run_outcome(decoded(out)) {
            Ok(text) => res matches Ok(units) && units_view(units@) == parse_units(text),
            Err(m) => res matches Err(e) && e.message@ == m,
        },
{
    let text = run_result(out)?;
    parse_list_units(text.as_str())
}

/// The invocation that asks whether unit `name` is enabled.
pub fn is_enabled(name: &str) -> (inv: Invocation)
    ensures
        inv.args_view() == seq!["is-enabled"@, name@],
{
    let args = args_of(&["is-enabled", name]);
    Invocation { args }
}

/// The enabled state that `systemctl is-enabled` reports: exit status zero
/// means enabled; otherwise the trimmed standard output names the state,
/// and anything else (a process that could not be started too) is `Other`.
pub open spec fn enabled_of(out: Option<OutputText>) -> Enabled {
    match out {
        None => Enabled::Other,
        Some(o) => if o.success {
            Enabled::Enabled
        } else {
            let s = trim(o.stdout);
            if s == "disabled"@ {
                Enabled::Disabled
            } else if s == "static"@ {
                Enabled::Static
            } else if s == "masked"@ {
                Enabled::Masked
            } else {
                Enabled::Other
            }
        },
    }
}

/// Reads the text that the `is-enabled` call gave back.
pub fn is_enabled_text_result(out: Option<&TextOutput>) -> (r: Enabled)
    ensures
        r == enabled_of(text_view(out)),
{
    match out {
        None => Enabled::Other,
        Some(o) => {
            if o.success {
                Enabled::Enabled
            } else {
                let s = trim_str(o.stdout.as_str());
                if s == owned("disabled") {
                    Enabled::Disabled
                } else if s == owned("static") {
                    Enabled::Static
                } else if s == owned("masked") {
                    Enabled::Masked
                } else {
                    Enabled::Other
                }
            }
        },
    }
}

/// Reads what the `is-enabled` call gave back.
pub fn is_enabled_result(out: Option<&CommandOutput>) -> (r: Enabled)
    ensures
        r == enabled_of(decoded(out)),
{
    match out {
        None => is_enabled_text_result(None),
        Some(o) => {
            let t = decode(o);
            is_enabled_text_result(Some(&t))
        },
    }
}

/// The invocation that asks for the detailed status of unit `name`.
pub fn status(name: &str) -> (inv: Invocation)
    ensures
        inv.args_view() == seq!["status"@, name@, "--no-pager"@, "--lines=0"@],
{
    let args = args_of(&["status", name, "--no-pager", "--lines=0"]);
    Invocation { args }
}

/// The status text: the standard output when there is any (the call exits
/// non-zero for an inactive unit, yet its output is what is wanted), else
/// the standard error, else a placeholder.
pub open spec fn status_outcome(out: Option<OutputText>) -> Result<Seq<char>, Seq<char>> {
    match out {
        None => Err("failed to spawn systemctl status"@),
        Some(o) => if o.stdout.len() > 0 {
            Ok(o.stdout)
        } else if o.stderr.len() > 0 {
            Ok(o.stderr)
        } else {
            Ok("(no status available)"@)
        },
    }
}

/// Reads the text that the `status` call gave back.
pub fn status_text_result(out: Option<&TextOutput>) -> (res: Result<String, SystemctlError>)
    ensures
        text_result(res) == status_outcome(text_view(out)),
{
    match out {
        None => Err(error_of(owned("failed to spawn systemctl status"))),
        Some(o) => {
            if o.stdout.as_str().unicode_len() != 0 {
                Ok(o.stdout.clone())
            } else if o.stderr.as_str().unicode_len() == 0 {
                Ok(owned("(no status available)"))
            } else {
                Ok(o.stderr.clone())
            }
        },
    }
}

/// Reads what the `status` call gave back.
pub fn status_result(out: Option<&CommandOutput>) -> (res: Result<String, SystemctlError>)
    ensures
        text_result(res) == status_outcome(decoded(out)),
{
    match out {
        None => status_text_result(None),
        Some(o) => {
            let t = decode(o);
            status_text_result(Some(&t))
        },
    }
}

/// The invocation of the verb `verb` (such as `start`) on unit `name`.
pub fn systemctl(verb: &str, name: &str) -> (inv: Invocation)
    ensures
        inv.args_view() == seq![verb@, name@],
{
    let args = args_of(&[verb, name]);
    Invocation { args }
}

/// What a verb call gives: its standard output when it exited with status
/// zero, else an error naming the verb and the unit, with the trimmed
/// standard error.
pub open spec fn verb_outcome(verb: Seq<char>, name: Seq<char>, out: Option<OutputText>) -> Result<
    Seq<char>,
    Seq<char>,
> {
    match out {
        None => Err("failed to spawn systemctl "@ + verb),
        Some(o) => if o.success {
            Ok(o.stdout)
        } else {
            Err("systemctl "@ + verb + " "@ + name + ": "@ + trim(o.stderr))
        },
    }
}

/// Reads the text that the call of `verb` on `name` gave back.
pub fn systemctl_text_result(verb: &str, name: &str, out: Option<&TextOutput>) -> (res: Result<
    String,
    SystemctlError,
>)
    ensures
        text_result(res) == verb_outcome(verb@, name@, text_view(out)),
{
    match out {
        None => {
            let mut m = owned("failed to spawn systemctl ");
            m.append(verb);
            Err(error_of(m))
        },
        Some(o) => {
            if !o.success {
                let mut m = owned("systemctl ");
                m.append(verb);
                m.append(" ");
                m.append(name);
                m.append(": ");
                let t = trim_str(o.stderr.as_str());
                m.append(t.as_str());
                Err(error_of(m))
            } else {
                Ok(o.stdout.clone())
            }
        },
    }
}

/// Reads what the call of `verb` on `name` gave back.
pub fn systemctl_result(verb: &str, name: &str, out: Option<&CommandOutput>) -> (res: Result<
    String,
    SystemctlError,
>)
    ensures
        text_result(res) == verb_outcome(verb@, name@, decoded(out)),
{
    match out {
        None => systemctl_text_result(verb, name, None),
        Some(o) => {
            let t = decode(o);
            systemctl_text_result(verb, name, Some(&t))
        },
    }
}

/// The invocation that starts unit `name`.
pub fn start(name: &str) -> (inv: Invocation)
    ensures
        inv.args_view() == seq!["start"@, name@],
{
    systemctl("start", name)
}

/// The invocation that stops unit `name`.
pub fn stop(name: &str) -> (inv: Invocation)
    ensures
        inv.args_view() == seq!["stop"@, name@],
{
    systemctl("stop", name)
}

/// The invocation that restarts unit `name`.
pub fn restart(name: &str) -> (inv: Invocation)
    ensures
        inv.args_view() == seq!["restart"@, name@],
{
    systemctl("restart", name)
}

/// The invocation that enables unit `name`.
pub fn enable(name: &str) -> (inv: Invocation)
    ensures
        inv.args_view() == seq!["enable"@, name@],
{
    systemctl("enable", name)
}

/// The invocation that disables unit `name`.
pub fn disable(name: &str) -> (inv: Invocation)
    ensures
        inv.args_view() == seq!["disable"@, name@],
{
    systemctl("disable", name)
}

/// The invocation that reloads unit `name`.
pub fn reload(name: &str) -> (inv: Invocation)
    ensures
        inv.args_view() == seq!["reload"@, name@],
{
    systemctl("reload", name)
}


proof fn lemma_units_cons(x: Seq<char>, rest: Seq<Seq<char>>)
    ensures
        units_of_lines(seq![x] + rest) == units_of_lines(seq![x]) + units_of_lines(rest),
{
    let l = seq![x] + rest;
    assert(l[0] == x);
    assert(l.drop_first() =~= rest);
    assert(seq![x].drop_first() =~= Seq::<Seq<char>>::empty());
    assert(units_of_lines(Seq::<Seq<char>>::empty()) =~= Seq::<UnitView>::empty());
    assert(units_of_lines(seq![x]) + units_of_lines(rest) =~= units_of_lines(l));
}

/// Parsing goes line by line: the units listed by two pieces of output
/// joined by a line break are those listed by the first, followed by those
/// listed by the second.
pub proof fn law_parse_line_local(a: Seq<char>, b: Seq<char>)
    ensures
        parse_units(a + seq!['\n'] + b) == parse_units(a) + parse_units(b),
    decreases a.len(),
{
    let s = a + seq!['\n'] + b;
    lemma_line_len_props(a);
    let k = line_len(a) as int;
    assert forall|i: int| 0 <= i < k implies #[trigger] s[i] != '\n' by {
        assert(s[i] == a[i]);
    }
    assert(s[k] == '\n');
    lemma_line_len_at(s, k);
    let first = s.take(k);
    assert(first =~= a.take(k));
    let tail = s.skip(k + 1);
    assert(lines(s) == seq![first] + lines(tail));
    lemma_units_cons(first, lines(tail));
    if a.len() == 0 {
        assert(tail =~= b);
        assert(words(first) =~= Seq::<Seq<char>>::empty());
        assert(unit_of_line(first) is None);
        assert(seq![first].drop_first() =~= Seq::<Seq<char>>::empty());
        assert(units_of_lines(Seq::<Seq<char>>::empty()) =~= Seq::<UnitView>::empty());
        assert(units_of_lines(seq![first]) =~= Seq::<UnitView>::empty());
        assert(parse_units(a) =~= Seq::<UnitView>::empty());
        assert(parse_units(s) =~= parse_units(a) + parse_units(b));
    } else if k == a.len() {
        assert(first =~= a);
        assert(tail =~= b);
        assert(lines(a) == seq![a]);
        assert(parse_units(s) =~= parse_units(a) + parse_units(b));
    } else {
        let rest_a = a.skip(k + 1);
        assert(tail =~= rest_a + seq!['\n'] + b);
        assert(lines(a) == seq![first] + lines(rest_a));
        lemma_units_cons(first, lines(rest_a));
        law_parse_line_local(rest_a, b);
        assert(parse_units(s) =~= parse_units(a) + parse_units(b));
    }
}

/// The fields of a unit written on one line, as `systemctl list-units
/// --plain` writes them (four one-word columns, each followed by any run of
/// blanks, then the description, then a line break), read back as that
/// unit. This holds when the description is in the form the parser gives
/// descriptions: its words joined by single spaces.
pub proof fn law_parse_formatted_line(
    u: UnitView,
    g1: Seq<char>,
    g2: Seq<char>,
    g3: Seq<char>,
    g4: Seq<char>,
)
    requires
        is_listed_form(u),
        is_gap(g1),
        is_gap(g2),
        is_gap(g3),
        is_gap(g4),
    ensures
        parse_units(
            u.name + g1 + u.load_state + g2 + u.active_state + g3 + u.sub_state + g4
                + u.description + seq!['\n'],
        ) == seq![u],
{
    let d = u.description;
    let r4 = d;
    let r3 = u.sub_state + g4 + r4;
    let r2 = u.active_state + g3 + r3;
    let r1 = u.load_state + g2 + r2;
    let line = u.name + g1 + r1;
    assert(line =~= u.name + g1 + u.load_state + g2 + u.active_state + g3 + u.sub_state + g4
        + u.description);
    lemma_words_token_gap(u.name, g1, r1);
    lemma_words_token_gap(u.load_state, g2, r2);
    lemma_words_token_gap(u.active_state, g3, r3);
    lemma_words_token_gap(u.sub_state, g4, r4);
    let w = words(line);
    assert(w =~= seq![u.name, u.load_state, u.active_state, u.sub_state] + words(d));
    assert(w.skip(4) =~= words(d));
    lemma_words_are_tokens(d);
    lemma_join_no_newline(words(d));
    assert(no_newline(d));
    assert(no_newline(g1) && no_newline(g2) && no_newline(g3) && no_newline(g4));
    lemma_token_no_newline(u.name);
    lemma_token_no_newline(u.load_state);
    lemma_token_no_newline(u.active_state);
    lemma_token_no_newline(u.sub_state);
    lemma_no_newline_concat(g4, r4);
    lemma_no_newline_concat(u.sub_state, g4 + r4);
    assert(u.sub_state + g4 + r4 =~= u.sub_state + (g4 + r4));
    lemma_no_newline_concat(g3, r3);
    lemma_no_newline_concat(u.active_state, g3 + r3);
    assert(u.active_state + g3 + r3 =~= u.active_state + (g3 + r3));
    lemma_no_newline_concat(g2, r2);
    lemma_no_newline_concat(u.load_state, g2 + r2);
    assert(u.load_state + g2 + r2 =~= u.load_state + (g2 + r2));
    lemma_no_newline_concat(g1, r1);
    lemma_no_newline_concat(u.name, g1 + r1);
    assert(u.name + g1 + r1 =~= u.name + (g1 + r1));
    lemma_lines_single(line);
    assert(line + seq!['\n'] =~= u.name + g1 + u.load_state + g2 + u.active_state + g3
        + u.sub_state + g4 + u.description + seq!['\n']);
    lemma_units_cons(line, Seq::<Seq<char>>::empty());
    assert(seq![line] + Seq::<Seq<char>>::empty() =~= seq![line]);
    assert(units_of_lines(Seq::<Seq<char>>::empty()) =~= Seq::<UnitView>::empty());
    assert(unit_of_line(line) == Some(u));
    assert(seq![line].drop_first() =~= Seq::<Seq<char>>::empty());
    assert(units_of_lines(seq![line]) =~= seq![u]);
    assert(parse_units(line + seq!['\n']) == units_of_lines(seq![line]));
    assert(parse_units(line + seq!['\n']) =~= seq![u]);
}


/// Whether `u` has the shape the parser gives units: four one-word fields,
/// and a description whose words are joined by single spaces.
pub open spec fn is_listed_form(u: UnitView) -> bool {
    &&& is_token(u.name)
    &&& is_token(u.load_state)
    &&& is_token(u.active_state)
    &&& is_token(u.sub_state)
    &&& join_words(words(u.description)) == u.description
}

proof fn lemma_unit_of_line_form(line: Seq<char>)
    ensures
        unit_of_line(line) matches Some(u) ==> is_listed_form(u),
{
    let w = words(line);
    if w.len() >= 4 {
        lemma_words_are_tokens(line);
        let rest = w.skip(4);
        assert forall|k: int| 0 <= k < rest.len() implies is_token(#[trigger] rest[k]) by {
            assert(rest[k] == w[k + 4]);
        }
        lemma_words_of_join(rest);
        assert(is_token(w[0]) && is_token(w[1]) && is_token(w[2]) && is_token(w[3]));
    }
}

proof fn lemma_units_of_lines_form(ls: Seq<Seq<char>>)
    ensures
        forall|k: int|
            0 <= k < units_of_lines(ls).len() ==> is_listed_form(#[trigger] units_of_lines(ls)[k]),
    decreases ls.len(),
{
    if ls.len() > 0 {
        let rest = ls.drop_first();
        lemma_units_of_lines_form(rest);
        lemma_unit_of_line_form(ls[0]);
        let us = units_of_lines(ls);
        match unit_of_line(ls[0]) {
            Some(u) => {
                assert(us == seq![u] + units_of_lines(rest));
                assert forall|k: int| 0 <= k < us.len() implies is_listed_form(#[trigger] us[k]) by {
                    if k > 0 {
                        assert(us[k] == units_of_lines(rest)[k - 1]);
                    }
                }
            },
            None => {
                assert(us == units_of_lines(rest));
            },
        }
    }
}

/// Every unit read from `list-units` output has four one-word fields and a
/// description whose words are joined by single spaces.
pub proof fn law_parsed_units_are_in_listed_form(s: Seq<char>)
    ensures
        forall|k: int|
            0 <= k < parse_units(s).len() ==> is_listed_form(#[trigger] parse_units(s)[k]),
{
    lemma_units_of_lines_form(lines(s));
}

/// A unit read from `list-units` output, written back as a line (with any
/// runs of blanks between the columns) and read again, is the same unit.
pub proof fn law_parsed_unit_reads_back(
    s: Seq<char>,
    k: int,
    g1: Seq<char>,
    g2: Seq<char>,
    g3: Seq<char>,
    g4: Seq<char>,
)
    requires
        0 <= k < parse_units(s).len(),
        is_gap(g1),
        is_gap(g2),
        is_gap(g3),
        is_gap(g4),
    ensures
        ({
            let u = parse_units(s)[k];
            parse_units(
                u.name + g1 + u.load_state + g2 + u.active_state + g3 + u.sub_state + g4
                    + u.description + seq!['\n'],
            ) == seq![u]
        }),
{
    law_parsed_units_are_in_listed_form(s);
    let u = parse_units(s)[k];
    assert(is_listed_form(u));
    law_parse_formatted_line(u, g1, g2, g3, g4);
}

} // verus!
