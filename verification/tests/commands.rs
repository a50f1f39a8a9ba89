use rustctl::systemd::commands::{
    disable, enable, is_enabled, is_enabled_result, list_units, list_units_result,
    parse_list_units, reload, restart, run_result, start, status, status_result, stop,
    systemctl, systemctl_result, CommandOutput, Invocation, decode, is_enabled_text_result,
    run_text_result, status_text_result, systemctl_text_result, TextOutput,
};
use rustctl::systemd::types::{Enabled, Unit};

fn args(inv: &Invocation) -> Vec<&str> {
    inv.args.iter().map(|s| s.as_str()).collect()
}

fn output(success: bool, stdout: &[u8], stderr: &[u8]) -> CommandOutput {
    CommandOutput { success, stdout: stdout.to_vec(), stderr: stderr.to_vec() }
}

fn unit(name: &str, load: &str, active: &str, sub: &str, description: &str) -> Unit {
    Unit {
        name: name.to_string(),
        load_state: load.to_string(),
        active_state: active.to_string(),
        sub_state: sub.to_string(),
        description: description.to_string(),
    }
}

#[test]
fn parses_a_well_formed_line() {
    let out = "sshd.service    loaded active running OpenSSH Daemon\n";
    let units = parse_list_units(out).unwrap();
    assert_eq!(units.len(), 1);
    let u = &units[0];
    assert_eq!(u.name, "sshd.service");
    assert_eq!(u.load_state, "loaded");
    assert_eq!(u.active_state, "active");
    assert_eq!(u.sub_state, "running");
    assert_eq!(u.description, "OpenSSH Daemon");
}

#[test]
fn description_with_spaces_is_preserved() {
    let out = "foo.service loaded active running A long description here\n";
    let units = parse_list_units(out).unwrap();
    assert_eq!(units[0].description, "A long description here");
}

#[test]
fn empty_output_lists_nothing() {
    assert!(parse_list_units("").unwrap().is_empty());
    assert!(parse_list_units("\n\n   \n").unwrap().is_empty());
}

#[test]
fn short_lines_are_skipped() {
    let out = "a.service loaded active\nb.socket loaded inactive dead\n";
    let units = parse_list_units(out).unwrap();
    assert_eq!(units, vec![unit("b.socket", "loaded", "inactive", "dead", "")]);
}

#[test]
fn several_lines_keep_their_order() {
    let out = "a.service loaded active running First\n\nb.timer  loaded  active  waiting  Second one\nc.mount loaded failed failed";
    let units = parse_list_units(out).unwrap();
    assert_eq!(
        units,
        vec![
            unit("a.service", "loaded", "active", "running", "First"),
            unit("b.timer", "loaded", "active", "waiting", "Second one"),
            unit("c.mount", "loaded", "failed", "failed", ""),
        ]
    );
}

#[test]
fn tabs_crlf_and_wide_blanks_separate_columns() {
    let out = "x.service\tloaded\u{00A0}active  running   Some\t\tthing  \r\n";
    let units = parse_list_units(out).unwrap();
    assert_eq!(units, vec![unit("x.service", "loaded", "active", "running", "Some thing")]);
}

#[test]
fn parsing_is_line_local() {
    let a = "a.service loaded active running First";
    let b = "b.socket loaded active listening Second";
    let joined = format!("{a}\n{b}");
    let mut expected = parse_list_units(a).unwrap();
    expected.extend(parse_list_units(b).unwrap());
    assert_eq!(parse_list_units(&joined).unwrap(), expected);
}

#[test]
fn a_formatted_line_reads_back() {
    let u = unit("cron.service", "loaded", "active", "running", "Regular background program");
    let line = format!(
        "{}   {} {}\t{}  {}\n",
        u.name, u.load_state, u.active_state, u.sub_state, u.description
    );
    assert_eq!(parse_list_units(&line).unwrap(), vec![u]);
}

#[test]
fn list_units_invocation() {
    assert_eq!(
        args(&list_units(None)),
        vec!["list-units", "--all", "--no-pager", "--no-legend", "--plain"]
    );
    assert_eq!(
        args(&list_units(Some("service"))),
        vec!["list-units", "--all", "--no-pager", "--no-legend", "--plain", "--type", "service"]
    );
}

#[test]
fn verb_invocations() {
    assert_eq!(args(&start("a.service")), vec!["start", "a.service"]);
    assert_eq!(args(&stop("a.service")), vec!["stop", "a.service"]);
    assert_eq!(args(&restart("a.service")), vec!["restart", "a.service"]);
    assert_eq!(args(&enable("a.service")), vec!["enable", "a.service"]);
    assert_eq!(args(&disable("a.service")), vec!["disable", "a.service"]);
    assert_eq!(args(&reload("a.service")), vec!["reload", "a.service"]);
    assert_eq!(args(&systemctl("mask", "b.socket")), vec!["mask", "b.socket"]);
    assert_eq!(args(&is_enabled("a.service")), vec!["is-enabled", "a.service"]);
    assert_eq!(
        args(&status("a.service")),
        vec!["status", "a.service", "--no-pager", "--lines=0"]
    );
}

#[test]
fn run_result_reads_output() {
    let ok = output(true, b"hello\n", b"");
    assert_eq!(run_result(Some(&ok)).unwrap(), "hello\n");
    let failed = output(false, b"", b"  Access denied \n");
    assert_eq!(run_result(Some(&failed)).unwrap_err().message, "systemctl failed: Access denied");
    assert_eq!(run_result(None).unwrap_err().message, "failed to spawn systemctl");
}

#[test]
fn invalid_utf8_is_replaced() {
    let ok = output(true, b"a\xffb", b"");
    assert_eq!(run_result(Some(&ok)).unwrap(), "a\u{FFFD}b");
}

#[test]
fn list_units_result_parses_or_fails() {
    let ok = output(true, b"sshd.service loaded active running OpenSSH Daemon\n", b"");
    let units = list_units_result(Some(&ok)).unwrap();
    assert_eq!(units, vec![unit("sshd.service", "loaded", "active", "running", "OpenSSH Daemon")]);
    let failed = output(false, b"", b"bus error");
    assert_eq!(list_units_result(Some(&failed)).unwrap_err().message, "systemctl failed: bus error");
    assert_eq!(list_units_result(None).unwrap_err().message, "failed to spawn systemctl");
}

#[test]
fn is_enabled_result_reads_state() {
    assert_eq!(is_enabled_result(Some(&output(true, b"enabled\n", b""))), Enabled::Enabled);
    assert_eq!(is_enabled_result(Some(&output(false, b"disabled\n", b""))), Enabled::Disabled);
    assert_eq!(is_enabled_result(Some(&output(false, b" static \n", b""))), Enabled::Static);
    assert_eq!(is_enabled_result(Some(&output(false, b"masked\n", b""))), Enabled::Masked);
    assert_eq!(is_enabled_result(Some(&output(false, b"indirect\n", b""))), Enabled::Other);
    assert_eq!(is_enabled_result(None), Enabled::Other);
}

#[test]
fn status_result_prefers_stdout() {
    let both = output(false, b"inactive unit\n", b"warning");
    assert_eq!(status_result(Some(&both)).unwrap(), "inactive unit\n");
    let err_only = output(false, b"", b"Unit x.service could not be found.\n");
    assert_eq!(status_result(Some(&err_only)).unwrap(), "Unit x.service could not be found.\n");
    let none = output(false, b"", b"");
    assert_eq!(status_result(Some(&none)).unwrap(), "(no status available)");
    assert_eq!(status_result(None).unwrap_err().message, "failed to spawn systemctl status");
}

#[test]
fn systemctl_result_names_verb_and_unit() {
    let ok = output(true, b"", b"");
    assert_eq!(systemctl_result("start", "a.service", Some(&ok)).unwrap(), "");
    let failed = output(false, b"", b"Failed to start a.service: Access denied\n");
    assert_eq!(
        systemctl_result("start", "a.service", Some(&failed)).unwrap_err().message,
        "systemctl start a.service: Failed to start a.service: Access denied"
    );
    assert_eq!(
        systemctl_result("stop", "a.service", None).unwrap_err().message,
        "failed to spawn systemctl stop"
    );
}

#[test]
fn enabled_labels() {
    assert_eq!(Enabled::Enabled.label(), "enabled");
    assert_eq!(Enabled::Disabled.label(), "disabled");
    assert_eq!(Enabled::Static.label(), "static");
    assert_eq!(Enabled::Masked.label(), "masked");
    assert_eq!(Enabled::Other.label(), "other");
}

fn text(success: bool, stdout: &str, stderr: &str) -> TextOutput {
    TextOutput { success, stdout: stdout.to_string(), stderr: stderr.to_string() }
}

#[test]
fn decode_reads_utf8() {
    let t = decode(&output(false, "ação\n".as_bytes(), b"\xfe!"));
    assert!(!t.success);
    assert_eq!(t.stdout, "ação\n");
    assert_eq!(t.stderr, "\u{FFFD}!");
}

#[test]
fn text_results() {
    assert_eq!(run_text_result(Some(&text(true, "x", "y"))).unwrap(), "x");
    assert_eq!(
        run_text_result(Some(&text(false, "x", "\tno\n"))).unwrap_err().message,
        "systemctl failed: no"
    );
    assert_eq!(is_enabled_text_result(Some(&text(false, "\n masked\n", ""))), Enabled::Masked);
    assert_eq!(is_enabled_text_result(Some(&text(false, "enabled-runtime", ""))), Enabled::Other);
    assert_eq!(is_enabled_text_result(None), Enabled::Other);
    assert_eq!(status_text_result(Some(&text(true, "", "err"))).unwrap(), "err");
    assert_eq!(
        systemctl_text_result("reload", "x.service", Some(&text(false, "", " Job failed. "))).unwrap_err().message,
        "systemctl reload x.service: Job failed."
    );
}

#[test]
fn parsed_units_read_back_from_their_lines() {
    let out = "a.service   loaded active   running  Some   spaced\tdescription\n\
               b.socket loaded inactive dead\n\
               c.timer loaded active waiting Daily job \r\n";
    for u in parse_list_units(out).unwrap() {
        let line = format!(
            "{} {}  {}\t{} {}\n",
            u.name, u.load_state, u.active_state, u.sub_state, u.description
        );
        assert_eq!(parse_list_units(&line).unwrap(), vec![u]);
    }
}
