use rustctl::app::filters::{filter_label, filter_type, matches_filter, FILTER_COUNT};
use rustctl::app::{App, MESSAGE_TTL_NS};
use rustctl::event::{action_for, handle_key, Action, Effect, Key, KeyInput, Verb, CONTROL, SHIFT};
use rustctl::systemd::commands::SystemctlError;
use rustctl::systemd::types::Unit;

fn unit(name: &str) -> Unit {
    Unit {
        name: name.to_string(),
        load_state: "loaded".to_string(),
        active_state: "active".to_string(),
        sub_state: "running".to_string(),
        description: format!("{name} unit"),
    }
}

fn sample() -> Vec<Unit> {
    vec![
        unit("a.service"),
        unit("b.socket"),
        unit("c.service"),
        unit("d.timer"),
        unit("e.service"),
    ]
}

fn err(m: &str) -> SystemctlError {
    SystemctlError { message: m.to_string() }
}

fn names(app: &App) -> Vec<String> {
    app.visible().iter().map(|u| u.name.clone()).collect()
}

fn key(code: Key) -> KeyInput {
    KeyInput { code, modifiers: 0 }
}

#[test]
fn filter_tabs() {
    assert_eq!(FILTER_COUNT, 6);
    let labels: Vec<&str> = (0..FILTER_COUNT).map(filter_label).collect();
    assert_eq!(labels, vec!["All", "service", "socket", "timer", "target", "mount"]);
    assert_eq!(filter_type(0), None);
    assert_eq!(filter_type(3), Some("timer"));
}

#[test]
fn matches_filter_by_suffix() {
    assert!(matches_filter(&unit("anything"), 0));
    assert!(matches_filter(&unit("sshd.service"), 1));
    assert!(!matches_filter(&unit("sshd.service"), 2));
    assert!(!matches_filter(&unit("service"), 1));
    assert!(!matches_filter(&unit("x.servicex"), 1));
    assert!(matches_filter(&unit("-.mount"), 5));
    assert!(matches_filter(&unit("a.target"), 4));
}

#[test]
fn new_app_selects_first_row() {
    let app = App::new(Ok(sample()), 7);
    assert_eq!(app.units().len(), 5);
    assert_eq!(app.selected(), Some(0));
    assert_eq!(app.filter(), 0);
    assert_eq!(app.last_refresh(), 7);
    assert!(app.message().is_none());
    assert_eq!(app.selected_unit().unwrap().name, "a.service");
}

#[test]
fn failed_listing_flashes_error() {
    let app = App::new(Err(err("systemctl failed: no bus")), 3);
    assert!(app.units().is_empty());
    assert_eq!(app.message().unwrap(), "refresh error: systemctl failed: no bus");
    assert_eq!(app.last_refresh(), 3 - 3_600_000_000_000);
    assert!(app.selected_unit().is_none());
}

#[test]
fn failed_refresh_keeps_units() {
    let mut app = App::new(Ok(sample()), 0);
    app.refresh(Err(err("boom")), 5);
    assert_eq!(app.units().len(), 5);
    assert_eq!(app.message().unwrap(), "refresh error: boom");
    assert_eq!(app.last_refresh(), 0);
}

#[test]
fn visible_follows_filter() {
    let mut app = App::new(Ok(sample()), 0);
    assert_eq!(names(&app).len(), 5);
    app.next_filter();
    assert_eq!(app.filter(), 1);
    assert_eq!(names(&app), vec!["a.service", "c.service", "e.service"]);
    app.next_filter();
    assert_eq!(names(&app), vec!["b.socket"]);
}

#[test]
fn next_filter_cycles_and_clamps() {
    let mut app = App::new(Ok(sample()), 0);
    app.select_last();
    assert_eq!(app.selected(), Some(4));
    app.next_filter();
    assert_eq!(app.selected(), Some(2));
    app.next_filter();
    assert_eq!(app.selected(), Some(0));
    app.next_filter();
    app.next_filter();
    assert_eq!(app.filter(), 4);
    assert!(names(&app).is_empty());
    assert_eq!(app.selected(), Some(0));
    app.next_filter();
    app.next_filter();
    assert_eq!(app.filter(), 0);
}

#[test]
fn select_offset_clamps() {
    let mut app = App::new(Ok(sample()), 0);
    app.select_offset(1);
    assert_eq!(app.selected(), Some(1));
    app.select_offset(10);
    assert_eq!(app.selected(), Some(4));
    app.select_offset(-2);
    assert_eq!(app.selected(), Some(2));
    app.select_offset(-10);
    assert_eq!(app.selected(), Some(0));
    app.select_offset(i32::MIN);
    assert_eq!(app.selected(), Some(0));
    app.select_offset(i32::MAX);
    assert_eq!(app.selected(), Some(4));
}

#[test]
fn stale_selection_is_pulled_back() {
    let mut app = App::new(Ok(sample()), 0);
    app.select_last();
    app.refresh(Ok(vec![unit("x.service"), unit("y.service")]), 1);
    assert_eq!(app.selected(), Some(1));
    assert_eq!(app.selected_unit().unwrap().name, "y.service");
    app.select_offset(-1);
    assert_eq!(app.selected(), Some(0));
}

#[test]
fn listing_restores_a_missing_selection() {
    let mut app = App::new(Ok(vec![]), 0);
    app.select_first();
    assert_eq!(app.selected(), None);
    app.refresh(Ok(sample()), 1);
    assert_eq!(app.selected(), Some(0));
    assert_eq!(app.selected_unit().unwrap().name, "a.service");
}

#[test]
fn stale_refresh_time_before_first_listing() {
    let app = App::new(Err(err("x")), 5_000_000_000_000);
    assert_eq!(app.last_refresh(), 5_000_000_000_000 - 3_600_000_000_000);
    let app = App::new(Ok(vec![]), 5);
    assert_eq!(app.last_refresh(), 5);
}

#[test]
fn select_on_empty_list() {
    let mut app = App::new(Ok(vec![]), 0);
    app.select_offset(1);
    assert_eq!(app.selected(), None);
    app.select_first();
    assert_eq!(app.selected(), None);
    app.select_last();
    assert_eq!(app.selected(), None);
}

#[test]
fn select_first_and_last() {
    let mut app = App::new(Ok(sample()), 0);
    app.select_last();
    assert_eq!(app.selected_unit().unwrap().name, "e.service");
    app.select_first();
    assert_eq!(app.selected_unit().unwrap().name, "a.service");
}

#[test]
fn message_expires_after_lifetime() {
    let mut app = App::new(Ok(sample()), 0);
    app.flash("hello".to_string(), 1_000);
    app.tick_message(1_000 + MESSAGE_TTL_NS);
    assert_eq!(app.message().unwrap(), "hello");
    app.tick_message(500);
    assert_eq!(app.message().unwrap(), "hello");
    app.tick_message(1_000 + MESSAGE_TTL_NS + 1);
    assert!(app.message().is_none());
}

#[test]
fn act_without_selection() {
    let mut app = App::new(Ok(vec![]), 0);
    assert_eq!(app.act_target(9), None);
    assert_eq!(app.message().unwrap(), "no unit selected");
}

#[test]
fn act_flashes_outcome_and_refreshes() {
    let mut app = App::new(Ok(sample()), 0);
    let name = app.act_target(1).unwrap();
    assert_eq!(name, "a.service");
    assert!(app.message().is_none());
    app.act_done("restart", &name, &Ok(String::new()), Ok(sample()), 2);
    assert_eq!(app.message().unwrap(), "restart a.service: ok");
    app.act_done("stop", &name, &Err(err("denied")), Ok(sample()), 3);
    assert_eq!(app.message().unwrap(), "stop a.service failed: denied");
    app.act_done("stop", &name, &Ok(String::new()), Err(err("gone")), 4);
    assert_eq!(app.message().unwrap(), "refresh error: gone");
}

#[test]
fn manual_refresh_flashes_refreshed() {
    let mut app = App::new(Ok(vec![]), 0);
    app.manual_refresh(Ok(sample()), 8);
    assert_eq!(app.units().len(), 5);
    assert_eq!(app.message().unwrap(), "refreshed");
    app.manual_refresh(Err(err("x")), 9);
    assert_eq!(app.message().unwrap(), "refreshed");
}

#[test]
fn quit_keys() {
    let mut app = App::new(Ok(sample()), 0);
    assert_eq!(handle_key(&mut app, key(Key::Char('q'))), Effect::Quit);
    let ctrl_c = KeyInput { code: Key::Char('c'), modifiers: CONTROL };
    assert_eq!(handle_key(&mut app, ctrl_c), Effect::Quit);
    let ctrl_shift_c = KeyInput { code: Key::Char('c'), modifiers: CONTROL | SHIFT };
    assert_eq!(handle_key(&mut app, ctrl_shift_c), Effect::Continue);
    assert_eq!(handle_key(&mut app, key(Key::Char('c'))), Effect::Continue);
}

#[test]
fn refresh_and_verb_keys() {
    let mut app = App::new(Ok(sample()), 0);
    let shift_r = KeyInput { code: Key::Char('R'), modifiers: SHIFT };
    assert_eq!(handle_key(&mut app, shift_r), Effect::Refresh);
    assert_eq!(handle_key(&mut app, key(Key::Char('R'))), Effect::Continue);
    assert_eq!(handle_key(&mut app, key(Key::Char('r'))), Effect::Act(Verb::Restart));
    assert_eq!(handle_key(&mut app, key(Key::Char('s'))), Effect::Act(Verb::Start));
    assert_eq!(handle_key(&mut app, key(Key::Char('S'))), Effect::Act(Verb::Stop));
    assert_eq!(handle_key(&mut app, key(Key::Char('e'))), Effect::Act(Verb::Enable));
    assert_eq!(handle_key(&mut app, key(Key::Char('E'))), Effect::Act(Verb::Disable));
    assert_eq!(handle_key(&mut app, key(Key::Char('l'))), Effect::Act(Verb::Reload));
    assert_eq!(Verb::Reload.label(), "reload");
    let inv = Verb::Stop.invocation("a.service");
    assert_eq!(inv.args, vec!["stop".to_string(), "a.service".to_string()]);
}

#[test]
fn movement_keys() {
    let mut app = App::new(Ok(sample()), 0);
    assert_eq!(action_for(key(Key::PageDown)), Action::Move(10));
    assert_eq!(handle_key(&mut app, key(Key::Down)), Effect::Continue);
    assert_eq!(app.selected(), Some(1));
    handle_key(&mut app, key(Key::Char('j')));
    assert_eq!(app.selected(), Some(2));
    handle_key(&mut app, key(Key::Char('k')));
    assert_eq!(app.selected(), Some(1));
    handle_key(&mut app, key(Key::Up));
    assert_eq!(app.selected(), Some(0));
    handle_key(&mut app, key(Key::PageDown));
    assert_eq!(app.selected(), Some(4));
    handle_key(&mut app, key(Key::PageUp));
    assert_eq!(app.selected(), Some(0));
    handle_key(&mut app, key(Key::End));
    assert_eq!(app.selected(), Some(4));
    handle_key(&mut app, key(Key::Home));
    assert_eq!(app.selected(), Some(0));
    handle_key(&mut app, key(Key::Tab));
    assert_eq!(app.filter(), 1);
    assert_eq!(handle_key(&mut app, key(Key::Other)), Effect::Continue);
    assert_eq!(app.filter(), 1);
}
