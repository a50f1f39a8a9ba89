use rustctl::app::App;
use rustctl::systemd::commands::SystemctlError;
use rustctl::systemd::types::{Enabled, Unit};
use rustctl::ui::{
    active_tone, decimal, detail_header, detail_lines, filter_tabs, list_rows, DetailLine, enabled_tone, first_lines, state_dot, status_bar, status_line_budget,
    status_section, units_title, Tone,
};

#[test]
fn state_dots() {
    assert_eq!(state_dot("active"), "●");
    assert_eq!(state_dot("inactive"), "○");
    assert_eq!(state_dot("failed"), "✖");
    assert_eq!(state_dot("activating"), "◔");
    assert_eq!(state_dot("deactivating"), "◔");
    assert_eq!(state_dot("reloading"), "?");
}

#[test]
fn tones() {
    assert_eq!(active_tone("active"), Tone::Green);
    assert_eq!(active_tone("failed"), Tone::Red);
    assert_eq!(active_tone("inactive"), Tone::Red);
    assert_eq!(active_tone("activating"), Tone::Yellow);
    assert_eq!(active_tone("maintenance"), Tone::Gray);
    assert_eq!(enabled_tone(Enabled::Enabled), Tone::Green);
    assert_eq!(enabled_tone(Enabled::Disabled), Tone::Red);
    assert_eq!(enabled_tone(Enabled::Masked), Tone::Magenta);
    assert_eq!(enabled_tone(Enabled::Static), Tone::DarkGray);
}

#[test]
fn status_budget() {
    assert_eq!(status_line_budget(20), 11);
    assert_eq!(status_line_budget(9), 0);
    assert_eq!(status_line_budget(3), 0);
}

#[test]
fn first_lines_follow_str_lines() {
    let text = "one\r\ntwo\n\nfour\r";
    let expected: Vec<String> = text.lines().map(|l| l.to_string()).collect();
    assert_eq!(first_lines(text, 10), expected);
    assert_eq!(first_lines(text, 2), vec!["one".to_string(), "two".to_string()]);
    assert!(first_lines(text, 0).is_empty());
    assert!(first_lines("", 5).is_empty());
    assert_eq!(first_lines("a\n", 5), vec!["a".to_string()]);
}

#[test]
fn status_sections() {
    assert!(status_section(&None, 30).is_empty());
    let e = SystemctlError { message: "failed to spawn systemctl status".to_string() };
    assert_eq!(
        status_section(&Some(Err(e)), 30),
        vec!["(status error: failed to spawn systemctl status)".to_string()]
    );
    let text = "l1\nl2\nl3\n".to_string();
    assert_eq!(status_section(&Some(Ok(text.clone())), 11), vec!["l1".to_string(), "l2".to_string()]);
    assert!(status_section(&Some(Ok(text)), 5).is_empty());
}

#[test]
fn status_bar_shows_message_or_help() {
    let mut app = App::new(Ok(vec![]), 0);
    let (text, highlighted) = status_bar(&app);
    assert_eq!(
        text,
        "q quit ↑↓ move Tab filter s start S stop r restart l reload e enable E disable R refresh"
    );
    assert!(!highlighted);
    app.flash("done".to_string(), 0);
    assert_eq!(status_bar(&app), ("done".to_string(), true));
}

#[test]
fn decimal_and_title() {
    assert_eq!(decimal(0), "0");
    assert_eq!(decimal(7), "7");
    assert_eq!(decimal(10), "10");
    assert_eq!(decimal(12345), "12345");
    assert_eq!(decimal(usize::MAX), usize::MAX.to_string());
    assert_eq!(units_title(42), "Units (42)  ⇄ Tab to filter");
}

#[test]
fn detail_header_rows() {
    let u = Unit {
        name: "sshd.service".to_string(),
        load_state: "loaded".to_string(),
        active_state: "failed".to_string(),
        sub_state: "failed".to_string(),
        description: "OpenSSH Daemon".to_string(),
    };
    let rows = detail_header(&u, Enabled::Masked);
    let labels: Vec<&str> = rows.iter().map(|r| r.label.as_str()).collect();
    assert_eq!(
        labels,
        vec!["Unit       ", "Description", "Load       ", "Active     ", "Sub        ", "Enabled    "]
    );
    let values: Vec<&str> = rows.iter().map(|r| r.value.as_str()).collect();
    assert_eq!(values, vec!["sshd.service", "OpenSSH Daemon", "loaded", "failed", "failed", "masked"]);
    let spaced: Vec<bool> = rows.iter().map(|r| r.spaced).collect();
    assert_eq!(spaced, vec![false, true, false, true, false, true]);
    assert_eq!(rows[3].tone, Some(Tone::Red));
    assert!(rows[3].bold);
    assert_eq!(rows[5].tone, Some(Tone::Magenta));
    assert!(!rows[5].bold);
    assert_eq!(rows[0].tone, None);
}

fn unit(name: &str, active: &str) -> Unit {
    Unit {
        name: name.to_string(),
        load_state: "loaded".to_string(),
        active_state: active.to_string(),
        sub_state: "running".to_string(),
        description: "Desc".to_string(),
    }
}

fn plain(line: &DetailLine) -> String {
    match line {
        DetailLine::Row(r) => format!("{}{}{}", r.label, if r.spaced { "  " } else { "" }, r.value),
        DetailLine::Blank => String::new(),
        DetailLine::Heading(t) => t.clone(),
        DetailLine::Plain(t) => t.clone(),
    }
}

#[test]
fn detail_panel_lines() {
    let none = detail_lines(None, Enabled::Other, &None, 30);
    assert_eq!(none.iter().map(plain).collect::<Vec<_>>(), vec!["No unit selected."]);
    let u = unit("a.service", "active");
    let status = Some(Ok("line one\nline two\n".to_string()));
    let lines = detail_lines(Some(&u), Enabled::Enabled, &status, 10);
    assert_eq!(
        lines.iter().map(plain).collect::<Vec<_>>(),
        vec![
            "Unit       a.service",
            "Description  Desc",
            "Load       loaded",
            "Active       active",
            "Sub        running",
            "Enabled      enabled",
            "",
            "Status",
            "line one",
        ]
    );
    assert!(matches!(lines[6], DetailLine::Blank));
    assert!(matches!(lines[7], DetailLine::Heading(_)));
}

#[test]
fn tabs_mark_the_active_filter() {
    let mut app = App::new(Ok(vec![]), 0);
    app.next_filter();
    app.next_filter();
    let tabs = filter_tabs(&app);
    let texts: Vec<&str> = tabs.iter().map(|t| t.text.as_str()).collect();
    assert_eq!(texts, vec![" All ", " service ", " socket ", " timer ", " target ", " mount "]);
    let active: Vec<bool> = tabs.iter().map(|t| t.active).collect();
    assert_eq!(active, vec![false, false, true, false, false, false]);
}

#[test]
fn list_rows_follow_visible_units() {
    let mut app = App::new(
        Ok(vec![unit("a.service", "active"), unit("b.socket", "failed"), unit("c.service", "activating")]),
        0,
    );
    app.next_filter();
    let rows = list_rows(&app);
    assert_eq!(rows.len(), 2);
    assert_eq!((rows[0].dot, rows[0].tone, rows[0].name.as_str()), ("●", Tone::Green, "a.service"));
    assert_eq!((rows[1].dot, rows[1].tone, rows[1].name.as_str()), ("◔", Tone::Yellow, "c.service"));
}
