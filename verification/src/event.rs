//! Keyboard input: what each key press does to the browser.

use vstd::prelude::*;

use crate::app::{App, AppView, offset_selection, next_filter_index, clamped_selection};
use crate::systemd::commands::{Invocation, disable, enable, reload, restart, start, stop};

verus! {

/// The Shift modifier bit.
pub const SHIFT: u8 = 0x01;

/// The Control modifier bit.
pub const CONTROL: u8 = 0x02;

/// A key, as far as the browser tells keys apart.
#[derive(Clone, Copy, Debug, PartialEq, Eq, Structural)]
pub enum Key {
    Char(char),
    Tab,
    Up,
    Down,
    PageUp,
    PageDown,
    Home,
    End,
    Other,
}

/// A key press: the key and the set of held modifiers as bits (Shift
/// `0x01`, Control `0x02`, Alt `0x04`, Super `0x08`, Hyper `0x10`, Meta
/// `0x20`).
#[derive(Clone, Copy, Debug, PartialEq, Eq, Structural)]
pub struct KeyInput {
    pub code: Key,
    pub modifiers: u8,
}

/// A `systemctl` verb that a key applies to the selected unit.
#[derive(Clone, Copy, Debug, PartialEq, Eq, Structural)]
pub enum Verb {
    Start,
    Stop,
    Restart,
    Enable,
    Disable,
    Reload,
}

impl Verb {
    pub open spec fn label_text(self) -> Seq<char> {
        match self {
            Verb::Start => "start"@,
            Verb::Stop => "stop"@,
            Verb::Restart => "restart"@,
            Verb::Enable => "enable"@,
            Verb::Disable => "disable"@,
            Verb::Reload => "reload"@,
        }
    }

    /// The verb as `systemctl` spells it, which is also how the status bar
    /// names it.
    pub fn label(self) -> (r: &'static str)
        ensures
            r@ == self.label_text(),
    {
        match self {
            Verb::Start => "start",
            Verb::Stop => "stop",
            Verb::Restart => "restart",
            Verb::Enable => "enable",
            Verb::Disable => "disable",
            Verb::Reload => "reload",
        }
    }

    /// The invocation that applies the verb to unit `name`.
    pub fn invocation(self, name: &str) -> (inv: Invocation)
        ensures
            inv.args_view() == seq![self.label_text(), name@],
    {
        match self {
            Verb::Start => start(name),
            Verb::Stop => stop(name),
            Verb::Restart => restart(name),
            Verb::Enable => enable(name),
            Verb::Disable => disable(name),
            Verb::Reload => reload(name),
        }
    }
}

/// What a key press asks for.
#[derive(Clone, Copy, Debug, PartialEq, Eq, Structural)]
pub enum Action {
    Quit,
    NextFilter,
    Refresh,
    Act(Verb),
    Move(i32),
    First,
    Last,
    Nothing,
}

/// The binding of keys to actions: `q` or Control-`c` quits, Tab changes
/// the filter, Shift-`R` refreshes the list while plain `r` restarts the
/// selected unit, `s` / `S` / `e` / `E` / `l` start, stop, enable, disable
/// and reload it, the arrows or `j` / `k` move by one row, the page keys by
/// ten, Home and End go to the first and last row.
pub open spec fn key_action(key: KeyInput) -> Action {
    match key.code {
        Key::Char(c) => if c == 'q' || (c == 'c' && key.modifiers == CONTROL) {
            Action::Quit
        } else if c == 'R' && key.modifiers & SHIFT != 0 {
            Action::Refresh
        } else if c == 'r' {
            Action::Act(Verb::Restart)
        } else if c == 's' {
            Action::Act(Verb::Start)
        } else if c == 'S' {
            Action::Act(Verb::Stop)
        } else if c == 'e' {
            Action::Act(Verb::Enable)
        } else if c == 'E' {
            Action::Act(Verb::Disable)
        } else if c == 'l' {
            Action::Act(Verb::Reload)
        } else if c == 'j' {
            Action::Move(1)
        } else if c == 'k' {
            Action::Move(-1i32)
        } else {
            Action::Nothing
        },
        Key::Tab => Action::NextFilter,
        Key::Down => Action::Move(1),
        Key::Up => Action::Move(-1i32),
        Key::PageDown => Action::Move(10),
        Key::PageUp => Action::Move(-10i32),
        Key::Home => Action::First,
        Key::End => Action::Last,
        Key::Other => Action::Nothing,
    }
}

/// The action that `key` asks for.
pub fn action_for(key: KeyInput) -> (a: Action)
    ensures
        a == key_action(key),
{
    match key.code {
        Key::Char(c) => {
            if c == 'q' || (c == 'c' && key.modifiers == CONTROL) {
                Action::Quit
            } else if c == 'R' && key.modifiers & SHIFT != 0 {
                Action::Refresh
            } else if c == 'r' {
                Action::Act(Verb::Restart)
            } else if c == 's' {
                Action::Act(Verb::Start)
            } else if c == 'S' {
                Action::Act(Verb::Stop)
            } else if c == 'e' {
                Action::Act(Verb::Enable)
            } else if c == 'E' {
                Action::Act(Verb::Disable)
            } else if c == 'l' {
                Action::Act(Verb::Reload)
            } else if c == 'j' {
                Action::Move(1)
            } else if c == 'k' {
                Action::Move(-1i32)
            } else {
                Action::Nothing
            }
        },
        Key::Tab => Action::NextFilter,
        Key::Down => Action::Move(1),
        Key::Up => Action::Move(-1i32),
        Key::PageDown => Action::Move(10),
        Key::PageUp => Action::Move(-10i32),
        Key::Home => Action::First,
        Key::End => Action::Last,
        Key::Other => Action::Nothing,
    }
}

/// What remains for the caller after a key press has been handled: nothing,
/// quitting, a fresh listing (to hand to [`App::manual_refresh`]), or a verb
/// on the selected unit (through [`App::act_target`] and [`App::act_done`]).
#[derive(Clone, Copy, Debug, PartialEq, Eq, Structural)]
pub enum Effect {
    Continue,
    Quit,
    Refresh,
    Act(Verb),
}

/// The effect left to the caller by `action`.
pub open spec fn effect_of(action: Action) -> Effect {
    match action {
        Action::Quit => Effect::Quit,
        Action::Refresh => Effect::Refresh,
        Action::Act(v) => Effect::Act(v),
        _ => Effect::Continue,
    }
}

/// Handles a key press: changes the filter or the selection as the key asks
/// and returns what is left to do outside.
pub fn handle_key(app: &mut App, key: KeyInput) -> (effect: Effect)
    ensures
        effect == effect_of(key_action(key)),
        final(app)@.units == old(app)@.units,
        final(app)@.message == old(app)@.message,
        final(app)@.last_refresh == old(app)@.last_refresh,
        match key_action(key) {
            Action::NextFilter => final(app)@.filter == next_filter_index(old(app)@.filter)
                && final(app)@.selected == clamped_selection(
                old(app)@.selected,
                final(app).visible_view().len(),
            ),
            Action::Move(d) => final(app)@ == (AppView {
                selected: offset_selection(
                    old(app)@.selected,
                    old(app).visible_view().len(),
                    d as int,
                ),
                ..old(app)@
            }),
            Action::First => final(app)@ == (AppView {
                selected: if old(app).visible_view().len() == 0 {
                    None
                } else {
                    Some(0usize)
                },
                ..old(app)@
            }),
            Action::Last => final(app)@ == (AppView {
                selected: if old(app).visible_view().len() == 0 {
                    None
                } else {
                    Some((old(app).visible_view().len() - 1) as usize)
                },
                ..old(app)@
            }),
            _ => final(app)@ == old(app)@,
        },
{
    match action_for(key) {
        Action::Quit => Effect::Quit,
        Action::NextFilter => {
            app.next_filter();
            Effect::Continue
        },
        Action::Refresh => Effect::Refresh,
        Action::Act(v) => Effect::Act(v),
        Action::Move(d) => {
            app.select_offset(d);
            Effect::Continue
        },
        Action::First => {
            app.select_first();
            Effect::Continue
        },
        Action::Last => {
            app.select_last();
            Effect::Continue
        },
        Action::Nothing => Effect::Continue,
    }
}


/// The key table, whatever modifiers are held (apart from Control-`c` and
/// Shift-`R`, which depend on them): `q` quits; the arrows and `j` / `k`
/// move one row down / up; the page keys move ten rows; Home and End go to
/// the first and last row; Tab changes the filter; `r`, `s`, `S`, `e`,
/// `E`, `l` restart, start, stop, enable, disable, reload.
pub proof fn law_key_table(m: u8)
    ensures
        key_action(KeyInput { code: Key::Char('q'), modifiers: m }) == Action::Quit,
        key_action(KeyInput { code: Key::Char('c'), modifiers: CONTROL }) == Action::Quit,
        key_action(KeyInput { code: Key::Char('R'), modifiers: SHIFT }) == Action::Refresh,
        key_action(KeyInput { code: Key::Char('R'), modifiers: 0 }) == Action::Nothing,
        key_action(KeyInput { code: Key::Up, modifiers: m }) == Action::Move(-1i32),
        key_action(KeyInput { code: Key::Char('k'), modifiers: m }) == Action::Move(-1i32),
        key_action(KeyInput { code: Key::Down, modifiers: m }) == Action::Move(1),
        key_action(KeyInput { code: Key::Char('j'), modifiers: m }) == Action::Move(1),
        key_action(KeyInput { code: Key::PageUp, modifiers: m }) == Action::Move(-10i32),
        key_action(KeyInput { code: Key::PageDown, modifiers: m }) == Action::Move(10),
        key_action(KeyInput { code: Key::Home, modifiers: m }) == Action::First,
        key_action(KeyInput { code: Key::End, modifiers: m }) == Action::Last,
        key_action(KeyInput { code: Key::Tab, modifiers: m }) == Action::NextFilter,
        key_action(KeyInput { code: Key::Char('r'), modifiers: m }) == Action::Act(Verb::Restart),
        key_action(KeyInput { code: Key::Char('s'), modifiers: m }) == Action::Act(Verb::Start),
        key_action(KeyInput { code: Key::Char('S'), modifiers: m }) == Action::Act(Verb::Stop),
        key_action(KeyInput { code: Key::Char('e'), modifiers: m }) == Action::Act(Verb::Enable),
        key_action(KeyInput { code: Key::Char('E'), modifiers: m }) == Action::Act(Verb::Disable),
        key_action(KeyInput { code: Key::Char('l'), modifiers: m }) == Action::Act(Verb::Reload),
        key_action(KeyInput { code: Key::Other, modifiers: m }) == Action::Nothing,
{
    assert(CONTROL & SHIFT == 0) by (bit_vector);
    assert(SHIFT & SHIFT != 0) by (bit_vector);
    assert(0u8 & SHIFT == 0) by (bit_vector);
}

/// Each verb is spelled as `systemctl` spells it, so that (the invocation of
/// a verb on a unit being that word followed by the unit's name) the key `r`
/// restarts the unit, `l` reloads it, and so on.
pub proof fn law_verbs_are_spelled_out()
    ensures
        Verb::Start.label_text() == "start"@,
        Verb::Stop.label_text() == "stop"@,
        Verb::Restart.label_text() == "restart"@,
        Verb::Enable.label_text() == "enable"@,
        Verb::Disable.label_text() == "disable"@,
        Verb::Reload.label_text() == "reload"@,
{
}

} // verus!
