//! The state of the unit browser and the actions the user can trigger on it.
//!
//! Work that reaches outside (running `systemctl`, reading the clock) is done
//! by the caller, which hands the results in: the outcome of a listing, the
//! outcome of a verb, and the current time as nanoseconds on a monotonic
//! clock.

pub mod filters;

use vstd::prelude::*;

use crate::app::filters::{FILTER_COUNT, matches_filter, unit_matches};
use crate::systemd::commands::{SystemctlError, text_result};
use crate::systemd::types::{Unit, UnitView, units_view};

verus! {

/// How long a flashed message stays on the status bar, in nanoseconds.
pub const MESSAGE_TTL_NS: u64 = 4_000_000_000;

/// How long before the start a browser counts its units as listed, until
/// its first successful listing, in nanoseconds (one hour).
pub const STALE_REFRESH_AGE_NS: i128 = 3_600_000_000_000;

/// The browser: the listed units, the selected row among the visible ones,
/// the active filter tab, the time of the last successful listing (signed,
/// on the caller's clock, so that it can lie before the clock's zero) and
/// the flashed message with the time it was flashed.
pub struct App {
    units: Vec<Unit>,
    selected: Option<usize>,
    filter: usize,
    last_refresh: i128,
    message: Option<(String, u64)>,
}

/// The abstract state of an [`App`].
pub struct AppView {
    pub units: Seq<UnitView>,
    pub selected: Option<usize>,
    pub filter: nat,
    pub last_refresh: int,
    pub message: Option<(Seq<char>, u64)>,
}

impl View for App {
    type V = AppView;

    closed spec fn view(&self) -> AppView {
        AppView {
            units: units_view(self.units@),
            selected: self.selected,
            filter: self.filter as nat,
            last_refresh: self.last_refresh as int,
            message: match self.message {
                Some((m, t)) => Some((m@, t)),
                None => None,
            },
        }
    }
}

/// The units that filter tab `filter` shows, in list order.
pub open spec fn visible_units(units: Seq<UnitView>, filter: nat) -> Seq<UnitView> {
    units.filter(|u: UnitView| unit_matches(u.name, filter as int))
}

/// The view of each referenced unit.
pub open spec fn refs_view(v: Seq<&Unit>) -> Seq<UnitView> {
    v.map_values(|u: &Unit| u@)
}

/// The selection after moving it by `delta` rows among `len` visible rows:
/// none when nothing is visible, else the current row (the first when none
/// is selected) moved by `delta` and held within the rows.
pub open spec fn offset_selection(selected: Option<usize>, len: nat, delta: int) -> Option<usize> {
    if len == 0 {
        None
    } else {
        let current: int = match selected {
            Some(i) => i as int,
            None => 0,
        };
        let next = current + delta;
        Some(
            if next < 0 {
                0usize
            } else if next >= len {
                (len - 1) as usize
            } else {
                next as usize
            },
        )
    }
}

/// The selection once held within `len` visible rows: the last row when it
/// lay beyond them, the first row when there was none (also when nothing is
/// visible).
pub open spec fn clamped_selection(selected: Option<usize>, len: nat) -> Option<usize> {
    let max: int = if len == 0 {
        0
    } else {
        len - 1
    };
    match selected {
        None => Some(0usize),
        Some(i) => Some(
            if i > max {
                max as usize
            } else {
                i
            },
        ),
    }
}

/// The filter tab after the one at `filter`, wrapping to the first.
pub open spec fn next_filter_index(filter: nat) -> nat {
    (filter + 1) % (FILTER_COUNT as nat)
}

/// The message flashed when a listing fails.
pub open spec fn refresh_error_text(e: Seq<char>) -> Seq<char> {
    "refresh error: "@ + e
}

/// The state after a listing: on success its units, the time, and the
/// selection held within the rows the active tab now shows; else the same
/// units and a flashed error.
pub open spec fn refreshed(v: AppView, result: Result<Seq<UnitView>, Seq<char>>, now: u64) -> AppView {
    match result {
        Ok(units) => AppView {
            units: units,
            last_refresh: now as int,
            selected: clamped_selection(v.selected, visible_units(units, v.filter).len()),
            ..v
        },
        Err(e) => AppView { message: Some((refresh_error_text(e), now)), ..v },
    }
}

/// The state at time `now`: the flashed message is dropped once more than
/// the message lifetime has passed since it was flashed.
pub open spec fn ticked(v: AppView, now: u64) -> AppView {
    match v.message {
        Some((_, t)) => if now - t > MESSAGE_TTL_NS {
            AppView { message: None, ..v }
        } else {
            v
        },
        None => v,
    }
}

/// The view of a listing's outcome.
pub open spec fn listing_view(r: Result<Vec<Unit>, SystemctlError>) -> Result<Seq<UnitView>, Seq<char>> {
    match r {
        Ok(units) => Ok(units_view(units@)),
        Err(e) => Err(e.message@),
    }
}

/// The message flashed once a verb has run on a unit.
pub open spec fn act_message(label: Seq<char>, name: Seq<char>, outcome: Result<Seq<char>, Seq<char>>) -> Seq<char> {
    match outcome {
        Ok(_) => label + " "@ + name + ": ok"@,
        Err(e) => label + " "@ + name + " failed: "@ + e,
    }
}

impl App {
    #[verifier::type_invariant]
    spec fn wf(self) -> bool {
        self.filter < FILTER_COUNT
    }

    /// The units of the active tab.
    pub open spec fn visible_view(self) -> Seq<UnitView> {
        visible_units(self@.units, self@.filter)
    }

    /// The selected unit: the visible unit at the selected row, if both exist.
    pub open spec fn selected_view(self) -> Option<UnitView> {
        match self@.selected {
            Some(i) => if i < self.visible_view().len() {
                Some(self.visible_view()[i as int])
            } else {
                None
            },
            None => None,
        }
    }

    /// A browser on the tab of all units, built from the outcome of the first
    /// listing at time `now`, with the first row selected. Until a listing
    /// succeeds, the last one counts as made an hour before `now`.
    pub fn new(initial: Result<Vec<Unit>, SystemctlError>, now: u64) -> (app: App)
        ensures
            app@ == (AppView {
                selected: Some(0usize),
                ..refreshed(
                    AppView {
                        units: seq![],
                        selected: None,
                        filter: 0,
                        last_refresh: now - STALE_REFRESH_AGE_NS,
                        message: None,
                    },
                    listing_view(initial),
                    now,
                )
            }),
    {
        let mut app = App {
            units: Vec::new(),
            selected: None,
            filter: 0,
            last_refresh: now as i128 - STALE_REFRESH_AGE_NS,
            message: None,
        };
        assert(app@.units =~= Seq::<UnitView>::empty());
        app.refresh(initial, now);
        app.selected = Some(0);
        app
    }

    /// The listed units.
    pub fn units(&self) -> (r: &Vec<Unit>)
        ensures
            units_view(r@) == self@.units,
    {
        &self.units
    }

    /// The selected row among the visible units.
    pub fn selected(&self) -> (r: Option<usize>)
        ensures
            r == self@.selected,
    {
        self.selected
    }

    /// The active filter tab.
    pub fn filter(&self) -> (r: usize)
        ensures
            r == self@.filter,
            r < FILTER_COUNT,
    {
        proof {
            use_type_invariant(self);
        }
        self.filter
    }

    /// When the last successful listing happened (an hour before the browser
    /// was made, while none has succeeded).
    pub fn last_refresh(&self) -> (r: i128)
        ensures
            r == self@.last_refresh,
    {
        self.last_refresh
    }

    /// The flashed message, if one is showing.
    pub fn message(&self) -> (r: Option<&String>)
        ensures
            match r {
                Some(m) => self@.message matches Some((text, _)) && m@ == text,
                None => self@.message is None,
            },
    {
        match &self.message {
            Some((m, _)) => Some(m),
            None => None,
        }
    }

    /// Units that pass the active filter, in list order.
    pub fn visible(&self) -> (res: Vec<&Unit>)
        ensures
            refs_view(res@) == self.visible_view(),
    {
        proof {
            use_type_invariant(self);
        }
        let mut res: Vec<&Unit> = Vec::new();
        let mut i: usize = 0;
        let ghost all = units_view(self.units@);
        let ghost pred = |u: UnitView| unit_matches(u.name, self.filter as int);
        assert(all.take(0).filter(pred) =~= Seq::<UnitView>::empty());
        while i < self.units.len()
            invariant
                i <= self.units.len(),
                self.filter < FILTER_COUNT,
                all == units_view(self.units@),
                pred == (|u: UnitView| unit_matches(u.name, self.filter as int)),
                refs_view(res@) == all.take(i as int).filter(pred),
            decreases self.units.len() - i,
        {
            let u = &self.units[i];
            assert(all.take(i + 1).drop_last() =~= all.take(i as int));
            assert(all.take(i + 1).last() == u@);
            reveal_with_fuel(Seq::<_>::filter, 1);
            let ghost before = refs_view(res@);
            if matches_filter(u, self.filter) {
                res.push(u);
                assert(refs_view(res@) =~= before.push(u@));
            }
            i += 1;
        }
        assert(all.take(i as int) =~= all);
        res
    }

    /// Applies the outcome of a listing made at time `now`: on success its
    /// units, with the selection held within the rows the active tab now
    /// shows; else a flashed "refresh error" message.
    pub fn refresh(&mut self, result: Result<Vec<Unit>, SystemctlError>, now: u64)
        ensures
            final(self)@ == refreshed(old(self)@, listing_view(result), now),
    {
        proof {
            use_type_invariant(&*self);
        }
        match result {
            Ok(units) => {
                self.units = units;
                self.last_refresh = now as i128;
                self.clamp_selection();
            },
            Err(e) => {
                let mut m = String::from_str("refresh error: ");
                m.append(e.message.as_str());
                self.flash(m, now);
            },
        }
    }

    /// Shows `msg` on the status bar from time `now`.
    pub fn flash(&mut self, msg: String, now: u64)
        ensures
            final(self)@ == (AppView { message: Some((msg@, now)), ..old(self)@ }),
    {
        proof {
            use_type_invariant(&*self);
        }
        self.message = Some((msg, now));
    }

    /// The visible unit at the selected row, if there is one.
    pub fn selected_unit(&self) -> (r: Option<&Unit>)
        ensures
            match r {
                Some(u) => self.selected_view() == Some(u@),
                None => self.selected_view() is None,
            },
    {
        let idx = match self.selected {
            Some(i) => i,
            None => {
                return None;
            },
        };
        let vis = self.visible();
        if idx < vis.len() {
            let u = vis[idx];
            assert(refs_view(vis@)[idx as int] == u@);
            Some(u)
        } else {
            None
        }
    }

    /// Drops the flashed message once more than the message lifetime has
    /// passed since it was flashed (time that runs backwards counts as none).
    pub fn tick_message(&mut self, now: u64)
        ensures
            final(self)@ == ticked(old(self)@, now),
    {
        proof {
            use_type_invariant(&*self);
        }
        let expired = match &self.message {
            Some((_, t)) => now > *t && now - *t > MESSAGE_TTL_NS,
            None => false,
        };
        if expired {
            self.message = None;
        }
    }

    /// The name of the unit a verb is to act on: that of the selected unit.
    /// With none selected, flashes "no unit selected" at time `now` instead.
    pub fn act_target(&mut self, now: u64) -> (r: Option<String>)
        ensures
            match old(self).selected_view() {
                Some(u) => r matches Some(n) && n@ == u.name && final(self)@ == old(self)@,
                None => r is None && final(self)@ == (AppView {
                    message: Some(("no unit selected"@, now)),
                    ..old(self)@
                }),
            },
    {
        match self.selected_unit() {
            Some(u) => Some(u.name.clone()),
            None => {
                self.flash(String::from_str("no unit selected"), now);
                None
            },
        }
    }

    /// Records, at time `now`, the outcome of running the verb `label` on
    /// unit `name` as a flashed message, then applies the listing made after
    /// it.
    pub fn act_done(
        &mut self,
        label: &str,
        name: &str,
        outcome: &Result<String, SystemctlError>,
        listing: Result<Vec<Unit>, SystemctlError>,
        now: u64,
    )
        ensures
            final(self)@ == refreshed(
                AppView {
                    message: Some((act_message(label@, name@, text_result(*outcome)), now)),
                    ..old(self)@
                },
                listing_view(listing),
                now,
            ),
    {
        let mut m = String::from_str(label);
        m.append(" ");
        m.append(name);
        match outcome {
            Ok(_) => m.append(": ok"),
            Err(e) => {
                m.append(" failed: ");
                m.append(e.message.as_str());
            },
        }
        self.flash(m, now);
        self.refresh(listing, now);
    }

    /// Applies a listing asked for by the user, then flashes "refreshed".
    pub fn manual_refresh(&mut self, listing: Result<Vec<Unit>, SystemctlError>, now: u64)
        ensures
            final(self)@ == (AppView {
                message: Some(("refreshed"@, now)),
                ..refreshed(old(self)@, listing_view(listing), now)
            }),
    {
        self.refresh(listing, now);
        self.flash(String::from_str("refreshed"), now);
    }

    /// Moves to the next filter tab (after the last, back to the first) and
    /// holds the selection within the rows it shows.
    pub fn next_filter(&mut self)
        ensures
            final(self)@.filter == next_filter_index(old(self)@.filter),
            final(self)@.units == old(self)@.units,
            final(self)@.message == old(self)@.message,
            final(self)@.last_refresh == old(self)@.last_refresh,
            final(self)@.selected == clamped_selection(
                old(self)@.selected,
                final(self).visible_view().len(),
            ),
    {
        proof {
            use_type_invariant(&*self);
        }
        self.filter = (self.filter + 1) % FILTER_COUNT;
        self.clamp_selection();
    }

    /// Moves the selection by `delta` rows, held within the visible rows;
    /// with no visible row, clears it.
    pub fn select_offset(&mut self, delta: i32)
        ensures
            final(self)@ == (AppView {
                selected: offset_selection(
                    old(self)@.selected,
                    old(self).visible_view().len(),
                    delta as int,
                ),
                ..old(self)@
            }),
    {
        proof {
            use_type_invariant(&*self);
        }
        let len = self.visible().len();
        if len == 0 {
            self.selected = None;
            return ;
        }
        let current: usize = match self.selected {
            Some(i) => i,
            None => 0,
        };
        let next: usize = if delta < 0 {
            let mag: usize = (0i64 - delta as i64) as usize;
            assert(mag as int == -(delta as int));
            if mag >= current {
                0
            } else if current - mag > len - 1 {
                len - 1
            } else {
                current - mag
            }
        } else {
            let d: usize = delta as usize;
            if current >= len - 1 || d >= len - 1 - current {
                len - 1
            } else {
                current + d
            }
        };
        self.selected = Some(next);
    }

    /// Selects the first visible row, or nothing when none is visible.
    pub fn select_first(&mut self)
        ensures
            final(self)@ == (AppView {
                selected: if old(self).visible_view().len() == 0 {
                    None
                } else {
                    Some(0usize)
                },
                ..old(self)@
            }),
    {
        proof {
            use_type_invariant(&*self);
        }
        if self.visible().len() == 0 {
            self.selected = None;
        } else {
            self.selected = Some(0);
        }
    }

    /// Selects the last visible row, or nothing when none is visible.
    pub fn select_last(&mut self)
        ensures
            final(self)@ == (AppView {
                selected: if old(self).visible_view().len() == 0 {
                    None
                } else {
                    Some((old(self).visible_view().len() - 1) as usize)
                },
                ..old(self)@
            }),
    {
        proof {
            use_type_invariant(&*self);
        }
        let len = self.visible().len();
        let last = if len == 0 {
            0
        } else {
            len - 1
        };
        if last == 0 && len == 0 {
            self.selected = None;
        } else {
            self.selected = Some(last);
        }
    }

    /// Keeps the selection within bounds after the filter or list changes.
    fn clamp_selection(&mut self)
        ensures
            final(self)@ == (AppView {
                selected: clamped_selection(old(self)@.selected, old(self).visible_view().len()),
                ..old(self)@
            }),
    {
        proof {
            use_type_invariant(&*self);
        }
        let len = self.visible().len();
        let max = if len == 0 {
            0
        } else {
            len - 1
        };
        let cur = match self.selected {
            Some(i) => i,
            None => 0,
        };
        if cur > max {
            self.selected = Some(max);
        }
        if self.selected.is_none() {
            self.selected = Some(0);
        }
    }
}


/// Pressing Tab once per filter tab comes back to the tab one started on,
/// having shown each tab on the way.
pub proof fn law_filter_tabs_cycle(f: nat)
    requires
        f < FILTER_COUNT,
    ensures
        next_filter_index(f) < FILTER_COUNT,
        next_filter_index(
            next_filter_index(
                next_filter_index(next_filter_index(next_filter_index(next_filter_index(f)))),
            ),
        ) == f,
{
}

/// A moved selection is cleared exactly when no row is visible, and
/// otherwise lies on a visible row.
pub proof fn law_offset_selection_in_bounds(selected: Option<usize>, len: nat, delta: int)
    requires
        len <= usize::MAX,
    ensures
        offset_selection(selected, len, delta) is None <==> len == 0,
        offset_selection(selected, len, delta) matches Some(i) ==> i < len,
{
}

/// Moving the selection by `delta` rows and then by `-delta` rows comes
/// back to the starting row when the first move stays within the rows.
pub proof fn law_offset_selection_round_trip(i: usize, len: nat, delta: int)
    requires
        i < len <= usize::MAX,
        0 <= i + delta < len,
    ensures
        offset_selection(offset_selection(Some(i), len, delta), len, -delta) == Some(i),
{
}

/// After the filter tab changes there is always a selection; it lies on a
/// visible row when there is one, and a selection that already did is kept.
pub proof fn law_clamped_selection_in_bounds(selected: Option<usize>, len: nat)
    requires
        len <= usize::MAX,
    ensures
        clamped_selection(selected, len) matches Some(i) && (len > 0 ==> i < len) && (len == 0
            ==> i == 0),
        selected matches Some(j) && j < len ==> clamped_selection(selected, len) == selected,
{
}

/// The tab of all unit types shows every listed unit, in list order.
pub proof fn law_all_tab_shows_every_unit(units: Seq<UnitView>)
    ensures
        visible_units(units, 0) == units,
    decreases units.len(),
{
    reveal_with_fuel(Seq::<_>::filter, 1);
    if units.len() > 0 {
        law_all_tab_shows_every_unit(units.drop_last());
        assert(units.drop_last().push(units.last()) =~= units);
    } else {
        assert(visible_units(units, 0) =~= units);
    }
}

/// A tab shows exactly the listed units whose type it names.
pub proof fn law_visible_units_match_tab(units: Seq<UnitView>, filter: nat, u: UnitView)
    ensures
        visible_units(units, filter).contains(u) <==> (units.contains(u) && unit_matches(
            u.name,
            filter as int,
        )),
{
    let pred = |x: UnitView| unit_matches(x.name, filter as int);
    let vis = units.filter(pred);
    if vis.contains(u) {
        units.lemma_filter_contains_rev(pred, u);
        let k = choose|k: int| 0 <= k < vis.len() && vis[k] == u;
        units.lemma_filter_pred(pred, k);
    }
    if units.contains(u) && unit_matches(u.name, filter as int) {
        let i = choose|i: int| 0 <= i < units.len() && units[i] == u;
        units.lemma_filter_contains(pred, i);
    }
}

/// A flashed message stays on the status bar for the message lifetime and
/// is gone at any later time.
pub proof fn law_flashed_message_lifetime(v: AppView, msg: Seq<char>, t: u64, now: u64)
    ensures
        ticked(AppView { message: Some((msg, t)), ..v }, now).message == if now - t
            > MESSAGE_TTL_NS {
            None
        } else {
            Some((msg, t))
        },
{
}


/// After a successful listing, the selection lies on one of the rows the
/// active tab shows, whenever it shows any.
pub proof fn law_listing_keeps_selection_on_a_row(v: AppView, units: Seq<UnitView>, now: u64)
    requires
        units.len() <= usize::MAX,
    ensures
        ({
            let len = visible_units(units, v.filter).len();
            len > 0 ==> (refreshed(v, Ok(units), now).selected matches Some(i) && i < len)
        }),
{
    let pred = |u: UnitView| unit_matches(u.name, v.filter as int);
    units.lemma_filter_len(pred);
    law_clamped_selection_in_bounds(v.selected, visible_units(units, v.filter).len());
}


/// The selected unit is the unit shown at the selected row of the active
/// tab: it is one of the listed units, its type is the tab's, and it is the
/// visible unit at that row; with no row selected, or a row past the visible
/// ones, there is none.
pub proof fn law_selected_unit_is_on_the_active_tab(app: App)
    ensures
        match app.selected_view() {
            Some(u) => {
                &&& app@.units.contains(u)
                &&& unit_matches(u.name, app@.filter as int)
                &&& app@.selected matches Some(i) && i < visible_units(app@.units, app@.filter).len()
                    && u == visible_units(app@.units, app@.filter)[i as int]
            },
            None => match app@.selected {
                None => true,
                Some(i) => i >= visible_units(app@.units, app@.filter).len(),
            },
        },
{
    let vis = visible_units(app@.units, app@.filter);
    let pred = |x: UnitView| unit_matches(x.name, app@.filter as int);
    if let Some(i) = app@.selected {
        if i < vis.len() {
            let u = vis[i as int];
            assert(vis.contains(u));
            law_visible_units_match_tab(app@.units, app@.filter, u);
        }
    }
}


/// The visible units are the listed ones of the tab's type, in list order:
/// none of an empty list, and a unit added at the end shows at the end
/// exactly when its type is the tab's.
pub proof fn law_visible_units_in_list_order(units: Seq<UnitView>, u: UnitView, filter: nat)
    ensures
        visible_units(seq![], filter) == Seq::<UnitView>::empty(),
        visible_units(units.push(u), filter) == if unit_matches(u.name, filter as int) {
            visible_units(units, filter).push(u)
        } else {
            visible_units(units, filter)
        },
{
    reveal_with_fuel(Seq::<_>::filter, 1);
    assert(units.push(u).drop_last() =~= units);
    assert(Seq::<UnitView>::empty().filter(|x: UnitView| unit_matches(x.name, filter as int))
        =~= Seq::<UnitView>::empty());
}

/// Moving the selection by `delta` rows lands on the row `delta` away from
/// the current one (the first row when none is selected), or on the first
/// or last row when that lies beyond them.
pub proof fn law_offset_selection_moves_by_delta(selected: Option<usize>, len: nat, delta: int)
    requires
        0 < len <= usize::MAX,
    ensures
        ({
            let from: int = match selected {
                Some(i) => i as int,
                None => 0,
            };
            let to = from + delta;
            &&& 0 <= to < len ==> offset_selection(selected, len, delta) == Some(to as usize)
            &&& to < 0 ==> offset_selection(selected, len, delta) == Some(0usize)
            &&& to >= len ==> offset_selection(selected, len, delta) == Some((len - 1) as usize)
        }),
{
}

/// A flashed message lasts four seconds.
pub proof fn law_message_lifetime_is_four_seconds()
    ensures
        MESSAGE_TTL_NS == 4_000_000_000u64,
{
}

} // verus!
