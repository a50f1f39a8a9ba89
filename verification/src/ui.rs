//! What the screen shows, as plain values: glyphs, tones, titles and the
//! lines of the detail and status panels. Drawing them is left to the
//! caller.

use vstd::prelude::*;

use crate::app::filters::{FILTER_COUNT, filter_label, filter_label_text};
use crate::app::{App, refs_view};
use crate::systemd::commands::SystemctlError;
use crate::systemd::types::{Enabled, Unit, UnitView};
use crate::text::{
    chars_of, lemma_line_len_at, lemma_line_len_bound, line_len, push_char, string_of, strings_view,
};

verus! {

/// A foreground colour of the screen.
#[derive(Clone, Copy, Debug, PartialEq, Eq, Structural)]
pub enum Tone {
    Green,
    Red,
    Yellow,
    Gray,
    Magenta,
    DarkGray,
}

fn str_eq(a: &str, b: &str) -> (r: bool)
    ensures
        r == (a@ == b@),
{
    String::from_str(a) == String::from_str(b)
}

/// The glyph that marks a unit's active state in the list.
pub open spec fn state_dot_text(state: Seq<char>) -> Seq<char> {
    if state == "active"@ {
        "●"@
    } else if state == "inactive"@ {
        "○"@
    } else if state == "failed"@ {
        "✖"@
    } else if state == "activating"@ || state == "deactivating"@ {
        "◔"@
    } else {
        "?"@
    }
}

/// Map an active-state string to a single glyph for the list rows.
pub fn state_dot(state: &str) -> (r: &'static str)
    ensures
        r@ == state_dot_text(state@),
{
    if str_eq(state, "active") {
        "●"
    } else if str_eq(state, "inactive") {
        "○"
    } else if str_eq(state, "failed") {
        "✖"
    } else if str_eq(state, "activating") || str_eq(state, "deactivating") {
        "◔"
    } else {
        "?"
    }
}

/// The colour of an active state: green when active, red when inactive or
/// failed, yellow while changing, gray otherwise.
pub open spec fn active_tone_of(state: Seq<char>) -> Tone {
    if state == "active"@ {
        Tone::Green
    } else if state == "inactive"@ || state == "failed"@ {
        Tone::Red
    } else if state == "activating"@ || state == "deactivating"@ {
        Tone::Yellow
    } else {
        Tone::Gray
    }
}

/// The colour in which an active state is shown.
pub fn active_tone(state: &str) -> (t: Tone)
    ensures
        t == active_tone_of(state@),
{
    if str_eq(state, "active") {
        Tone::Green
    } else if str_eq(state, "inactive") || str_eq(state, "failed") {
        Tone::Red
    } else if str_eq(state, "activating") || str_eq(state, "deactivating") {
        Tone::Yellow
    } else {
        Tone::Gray
    }
}

/// The colour of an enabled state: green when enabled, red when disabled,
/// magenta when masked, dark gray otherwise.
pub open spec fn enabled_tone_of(e: Enabled) -> Tone {
    match e {
        Enabled::Enabled => Tone::Green,
        Enabled::Disabled => Tone::Red,
        Enabled::Masked => Tone::Magenta,
        _ => Tone::DarkGray,
    }
}

/// The colour in which an enabled state is shown.
pub fn enabled_tone(e: Enabled) -> (t: Tone)
    ensures
        t == enabled_tone_of(e),
{
    match e {
        Enabled::Enabled => Tone::Green,
        Enabled::Disabled => Tone::Red,
        Enabled::Masked => Tone::Magenta,
        _ => Tone::DarkGray,
    }
}

/// Rows of the detail panel above the status text.
pub const DETAIL_HEADER_ROWS: u16 = 9;

/// How many lines of status text fit in a detail panel `inner_height` rows
/// high.
pub fn status_line_budget(inner_height: u16) -> (n: usize)
    ensures
        n == if inner_height >= DETAIL_HEADER_ROWS {
            inner_height - DETAIL_HEADER_ROWS
        } else {
            0
        },
{
    if inner_height >= DETAIL_HEADER_ROWS {
        (inner_height - DETAIL_HEADER_ROWS) as usize
    } else {
        0
    }
}

/// `l` without one final `'\r'`.
pub open spec fn strip_cr(l: Seq<char>) -> Seq<char> {
    if l.len() > 0 && l.last() == '\r' {
        l.drop_last()
    } else {
        l
    }
}

/// The lines of `s` as `str::lines` yields them: split at `'\n'`, the
/// `'\r'` of a `"\r\n"` dropped, no final empty line after a final `'\n'`.
pub open spec fn text_lines(s: Seq<char>) -> Seq<Seq<char>>
    decreases s.len(),
{
    if s.len() == 0 {
        seq![]
    } else {
        proof {
            lemma_line_len_bound(s);
        }
        if line_len(s) == s.len() {
            seq![s]
        } else {
            seq![strip_cr(s.take(line_len(s) as int))] + text_lines(s.skip(line_len(s) + 1int))
        }
    }
}

/// The first `max` lines of `text` (all of them when there are fewer).
pub fn first_lines(text: &str, max: usize) -> (res: Vec<String>)
    ensures
        strings_view(res@) == text_lines(text@).take(
            if max < text_lines(text@).len() {
                max as int
            } else {
                text_lines(text@).len() as int
            },
        ),
{
    let chars = chars_of(text);
    let n = chars.len();
    let mut res: Vec<String> = Vec::new();
    let mut i: usize = 0;
    assert(chars@.skip(0) =~= chars@);
    assert(strings_view(res@) + text_lines(text@) =~= text_lines(text@));
    while i < n && res.len() < max
        invariant
            i <= n == chars.len(),
            chars@ == text@,
            res.len() <= max,
            text_lines(text@) == strings_view(res@) + text_lines(chars@.skip(i as int)),
        decreases n - i,
    {
        let mut e = i;
        while e < n && chars[e] != '\n'
            invariant
                i <= e <= n == chars.len(),
                forall|m: int| i <= m < e ==> #[trigger] chars@[m] != '\n',
            decreases n - e,
        {
            e += 1;
        }
        let ghost t = chars@.skip(i as int);
        let ghost line = chars@.subrange(i as int, e as int);
        proof {
            assert forall|m: int| 0 <= m < e - i implies #[trigger] t[m] != '\n' by {
                assert(t[m] == chars@[i + m]);
            }
            if e < n {
                assert(t[e - i] == chars@[e as int]);
            }
            lemma_line_len_at(t, e - i);
            assert(t.take(e - i) =~= line);
        }
        let ghost before = strings_view(res@);
        if e < n {
            let end = if e > i && chars[e - 1] == '\r' {
                e - 1
            } else {
                e
            };
            let l = string_of(&chars, i, end);
            assert(l@ =~= strip_cr(line));
            res.push(l);
            assert(t.skip(e - i + 1) =~= chars@.skip(e + 1));
            i = e + 1;
        } else {
            let l = string_of(&chars, i, e);
            assert(t =~= line);
            res.push(l);
            i = n;
            assert(chars@.skip(n as int) =~= Seq::<char>::empty());
        }
        assert(strings_view(res@) =~= before.push(res@.last()@));
        assert(text_lines(text@) =~= strings_view(res@) + text_lines(chars@.skip(i as int)));
    }
    proof {
        let all = text_lines(text@);
        if i >= n {
            assert(chars@.skip(i as int) =~= Seq::<char>::empty());
            assert(all =~= strings_view(res@));
        }
        assert(all.take(res.len() as int) =~= strings_view(res@));
    }
    res
}

/// The status lines of the detail panel: the first lines of the status text
/// that fit, or one line that shows the error, or none when no unit is
/// selected.
pub open spec fn status_section_text(status: Option<Result<Seq<char>, Seq<char>>>, inner_height: u16) -> Seq<Seq<char>> {
    match status {
        None => seq![],
        Some(Err(e)) => seq!["(status error: "@ + e + ")"@],
        Some(Ok(text)) => {
            let budget: int = if inner_height >= DETAIL_HEADER_ROWS {
                inner_height - DETAIL_HEADER_ROWS
            } else {
                0
            };
            let all = text_lines(text);
            all.take(
                if budget < all.len() {
                    budget
                } else {
                    all.len() as int
                },
            )
        },
    }
}

/// The status lines of the detail panel for `status`, the result of the
/// status call for the selected unit (`None` when none is selected).
pub fn status_section(status: &Option<Result<String, SystemctlError>>, inner_height: u16) -> (res:
    Vec<String>)
    ensures
        strings_view(res@) == status_section_text(
            match status {
                None => None,
                Some(Ok(t)) => Some(Ok(t@)),
                Some(Err(e)) => Some(Err(e.message@)),
            },
            inner_height,
        ),
{
    match status {
        None => {
            let res: Vec<String> = Vec::new();
            assert(strings_view(res@) =~= Seq::<Seq<char>>::empty());
            res
        },
        Some(Err(e)) => {
            let mut m = String::from_str("(status error: ");
            m.append(e.message.as_str());
            m.append(")");
            let mut res: Vec<String> = Vec::new();
            res.push(m);
            assert(strings_view(res@) =~= seq![m@]);
            res
        },
        Some(Ok(text)) => first_lines(text.as_str(), status_line_budget(inner_height)),
    }
}

/// The help shown on the status bar when no message is flashed.
pub open spec fn help_text() -> Seq<char> {
    "q quit ↑↓ move Tab filter s start S stop r restart l reload e enable E disable R refresh"@
}

/// The status bar: the flashed message, highlighted, or else the help.
pub fn status_bar(app: &App) -> (r: (String, bool))
    ensures
        match app@.message {
            Some((m, _)) => r.0@ == m && r.1,
            None => r.0@ == help_text() && !r.1,
        },
{
    match app.message() {
        Some(m) => (m.clone(), true),
        None => (
            String::from_str(
                "q quit ↑↓ move Tab filter s start S stop r restart l reload e enable E disable R refresh",
            ),
            false,
        ),
    }
}

/// The character of decimal digit `d`.
pub open spec fn digit_char(d: nat) -> char {
    seq!['0', '1', '2', '3', '4', '5', '6', '7', '8', '9'][d as int]
}

/// `n` in decimal.
pub open spec fn decimal_text(n: nat) -> Seq<char>
    decreases n,
{
    if n < 10 {
        seq![digit_char(n)]
    } else {
        decimal_text(n / 10).push(digit_char(n % 10))
    }
}

fn digit(d: usize) -> (c: char)
    requires
        d < 10,
    ensures
        c == digit_char(d as nat),
{
    let digits = ['0', '1', '2', '3', '4', '5', '6', '7', '8', '9'];
    assert(digits@ =~= seq!['0', '1', '2', '3', '4', '5', '6', '7', '8', '9']);
    digits[d]
}

/// `n` written in decimal.
pub fn decimal(n: usize) -> (s: String)
    ensures
        s@ == decimal_text(n as nat),
    decreases n,
{
    if n < 10 {
        let mut s = String::new();
        push_char(&mut s, digit(n));
        assert(s@ =~= seq![digit_char(n as nat)]);
        s
    } else {
        let mut s = decimal(n / 10);
        push_char(&mut s, digit(n % 10));
        s
    }
}

/// The title of the unit list for `count` visible units.
pub open spec fn units_title_text(count: nat) -> Seq<char> {
    "Units ("@ + decimal_text(count) + ")  ⇄ Tab to filter"@
}

/// The title of the unit list, which counts the visible units.
pub fn units_title(count: usize) -> (s: String)
    ensures
        s@ == units_title_text(count as nat),
{
    let mut s = String::from_str("Units (");
    let d = decimal(count);
    s.append(d.as_str());
    s.append(")  ⇄ Tab to filter");
    s
}


/// One header row of the detail panel: a label, then the value (after a
/// two-space gap when `spaced`), drawn in `tone` if one is given and in bold
/// when `bold`.
#[derive(Clone, Debug)]
pub struct DetailRow {
    pub label: String,
    pub spaced: bool,
    pub value: String,
    pub tone: Option<Tone>,
    pub bold: bool,
}

/// The text and look of a [`DetailRow`].
pub struct DetailRowView {
    pub label: Seq<char>,
    pub spaced: bool,
    pub value: Seq<char>,
    pub tone: Option<Tone>,
    pub bold: bool,
}

impl DetailRow {
    /// A copy of the row.
    pub fn clone_row(&self) -> (r: DetailRow)
        ensures
            r@ == self@,
    {
        DetailRow {
            label: self.label.clone(),
            spaced: self.spaced,
            value: self.value.clone(),
            tone: self.tone,
            bold: self.bold,
        }
    }
}

impl View for DetailRow {
    type V = DetailRowView;

    open spec fn view(&self) -> DetailRowView {
        DetailRowView {
            label: self.label@,
            spaced: self.spaced,
            value: self.value@,
            tone: self.tone,
            bold: self.bold,
        }
    }
}

/// The view of each row of a sequence.
pub open spec fn rows_view(rows: Seq<DetailRow>) -> Seq<DetailRowView> {
    rows.map_values(|r: DetailRow| r@)
}

/// The header rows of the detail panel for unit `u`, whose enabled state is
/// `e`: unit name, description, load state, active state (in its colour,
/// bold), sub state, and enabled state (in its colour).
pub open spec fn detail_header_rows(u: UnitView, e: Enabled) -> Seq<DetailRowView> {
    seq![
        DetailRowView { label: "Unit       "@, spaced: false, value: u.name, tone: None, bold: false },
        DetailRowView {
            label: "Description"@,
            spaced: true,
            value: u.description,
            tone: None,
            bold: false,
        },
        DetailRowView {
            label: "Load       "@,
            spaced: false,
            value: u.load_state,
            tone: None,
            bold: false,
        },
        DetailRowView {
            label: "Active     "@,
            spaced: true,
            value: u.active_state,
            tone: Some(active_tone_of(u.active_state)),
            bold: true,
        },
        DetailRowView {
            label: "Sub        "@,
            spaced: false,
            value: u.sub_state,
            tone: None,
            bold: false,
        },
        DetailRowView {
            label: "Enabled    "@,
            spaced: true,
            value: e.label_text(),
            tone: Some(enabled_tone_of(e)),
            bold: false,
        },
    ]
}

/// The header rows of the detail panel for `u`, whose enabled state is
/// `enabled`.
pub fn detail_header(u: &Unit, enabled: Enabled) -> (rows: Vec<DetailRow>)
    ensures
        rows_view(rows@) == detail_header_rows(u@, enabled),
{
    let mut rows: Vec<DetailRow> = Vec::new();
    rows.push(
        DetailRow {
            label: String::from_str("Unit       "),
            spaced: false,
            value: u.name.clone(),
            tone: None,
            bold: false,
        },
    );
    rows.push(
        DetailRow {
            label: String::from_str("Description"),
            spaced: true,
            value: u.description.clone(),
            tone: None,
            bold: false,
        },
    );
    rows.push(
        DetailRow {
            label: String::from_str("Load       "),
            spaced: false,
            value: u.load_state.clone(),
            tone: None,
            bold: false,
        },
    );
    rows.push(
        DetailRow {
            label: String::from_str("Active     "),
            spaced: true,
            value: u.active_state.clone(),
            tone: Some(active_tone(u.active_state.as_str())),
            bold: true,
        },
    );
    rows.push(
        DetailRow {
            label: String::from_str("Sub        "),
            spaced: false,
            value: u.sub_state.clone(),
            tone: None,
            bold: false,
        },
    );
    rows.push(
        DetailRow {
            label: String::from_str("Enabled    "),
            spaced: true,
            value: String::from_str(enabled.label()),
            tone: Some(enabled_tone(enabled)),
            bold: false,
        },
    );
    assert(rows_view(rows@) =~= detail_header_rows(u@, enabled));
    rows
}


/// A line of the detail panel.
#[derive(Clone, Debug)]
pub enum DetailLine {
    /// A labelled header row.
    Row(DetailRow),
    /// An empty line.
    Blank,
    /// A section heading, drawn underlined.
    Heading(String),
    /// Plain text.
    Plain(String),
}

/// The text and look of a [`DetailLine`].
pub enum DetailLineView {
    Row(DetailRowView),
    Blank,
    Heading(Seq<char>),
    Plain(Seq<char>),
}

impl View for DetailLine {
    type V = DetailLineView;

    open spec fn view(&self) -> DetailLineView {
        match self {
            DetailLine::Row(r) => DetailLineView::Row(r@),
            DetailLine::Blank => DetailLineView::Blank,
            DetailLine::Heading(t) => DetailLineView::Heading(t@),
            DetailLine::Plain(t) => DetailLineView::Plain(t@),
        }
    }
}

/// The view of each line of a sequence.
pub open spec fn lines_view(v: Seq<DetailLine>) -> Seq<DetailLineView> {
    v.map_values(|l: DetailLine| l@)
}

/// The content of the detail panel `inner_height` rows high: for the
/// selected unit `u` (whose enabled state is `e` and whose status call gave
/// `status`), its header rows, an empty line, the heading "Status" and the
/// status lines that fit; with no unit selected, the line "No unit
/// selected.".
pub open spec fn detail_lines_text(
    u: Option<UnitView>,
    e: Enabled,
    status: Option<Result<Seq<char>, Seq<char>>>,
    inner_height: u16,
) -> Seq<DetailLineView> {
    match u {
        None => seq![DetailLineView::Plain("No unit selected."@)],
        Some(u) => detail_header_rows(u, e).map_values(|r: DetailRowView| DetailLineView::Row(r))
            + seq![DetailLineView::Blank, DetailLineView::Heading("Status"@)]
            + status_section_text(status, inner_height).map_values(
            |t: Seq<char>| DetailLineView::Plain(t),
        ),
    }
}

/// The content of the detail panel `inner_height` rows high, for the
/// selected unit `u` (if any), its enabled state `enabled` and the result of
/// its status call `status`.
pub fn detail_lines(
    u: Option<&Unit>,
    enabled: Enabled,
    status: &Option<Result<String, SystemctlError>>,
    inner_height: u16,
) -> (lines: Vec<DetailLine>)
    ensures
        lines_view(lines@) == detail_lines_text(
            match u {
                Some(u) => Some(u@),
                None => None,
            },
            enabled,
            match status {
                None => None,
                Some(Ok(t)) => Some(Ok(t@)),
                Some(Err(e)) => Some(Err(e.message@)),
            },
            inner_height,
        ),
{
    let mut lines: Vec<DetailLine> = Vec::new();
    match u {
        None => {
            lines.push(DetailLine::Plain(String::from_str("No unit selected.")));
            assert(lines_view(lines@) =~= seq![DetailLineView::Plain("No unit selected."@)]);
        },
        Some(u) => {
            let header = detail_header(u, enabled);
            let ghost hv = rows_view(header@);
            let mut i: usize = 0;
            while i < header.len()
                invariant
                    i <= header.len(),
                    hv == rows_view(header@),
                    lines_view(lines@) == hv.take(i as int).map_values(
                        |r: DetailRowView| DetailLineView::Row(r),
                    ),
                decreases header.len() - i,
            {
                let row = header[i].clone_row();
                let ghost before = lines_view(lines@);
                assert(row@ == hv[i as int]);
                lines.push(DetailLine::Row(row));
                assert(lines_view(lines@) =~= before.push(DetailLineView::Row(hv[i as int])));
                assert(hv.take(i + 1) =~= hv.take(i as int).push(hv[i as int]));
                assert(lines_view(lines@) =~= hv.take(i + 1).map_values(
                    |r: DetailRowView| DetailLineView::Row(r),
                ));
                i += 1;
            }
            assert(hv.take(header.len() as int) =~= hv);
            let ghost head = lines_view(lines@);
            lines.push(DetailLine::Blank);
            lines.push(DetailLine::Heading(String::from_str("Status")));
            assert(lines_view(lines@) =~= head + seq![
                DetailLineView::Blank,
                DetailLineView::Heading("Status"@),
            ]);
            let section = status_section(status, inner_height);
            let ghost sv = strings_view(section@);
            let ghost mid = lines_view(lines@);
            let mut j: usize = 0;
            while j < section.len()
                invariant
                    j <= section.len(),
                    sv == strings_view(section@),
                    lines_view(lines@) == mid + sv.take(j as int).map_values(
                        |t: Seq<char>| DetailLineView::Plain(t),
                    ),
                decreases section.len() - j,
            {
                let ghost before = lines_view(lines@);
                let t = section[j].clone();
                assert(t@ == sv[j as int]);
                lines.push(DetailLine::Plain(t));
                assert(lines_view(lines@) =~= before.push(DetailLineView::Plain(sv[j as int])));
                assert(sv.take(j + 1) =~= sv.take(j as int).push(sv[j as int]));
                assert(lines_view(lines@) =~= mid + sv.take(j + 1).map_values(
                    |t: Seq<char>| DetailLineView::Plain(t),
                ));
                j += 1;
            }
            assert(sv.take(section.len() as int) =~= sv);
        },
    }
    lines
}

/// A filter tab as drawn: its title padded with a space on each side, and
/// whether it is the active tab.
#[derive(Clone, Debug)]
pub struct Tab {
    pub text: String,
    pub active: bool,
}

/// The filter tabs of the title bar, in order; the active filter's tab is
/// the one marked active.
pub fn filter_tabs(app: &App) -> (tabs: Vec<Tab>)
    ensures
        tabs.len() == FILTER_COUNT,
        forall|i: int|
            0 <= i < FILTER_COUNT ==> (#[trigger] tabs@[i]).text@ == " "@ + filter_label_text(i)
                + " "@ && tabs@[i].active == (i == app@.filter),
{
    let current = app.filter();
    let mut tabs: Vec<Tab> = Vec::new();
    let mut i: usize = 0;
    while i < FILTER_COUNT
        invariant
            i <= FILTER_COUNT,
            current == app@.filter,
            tabs.len() == i,
            forall|k: int|
                0 <= k < i ==> (#[trigger] tabs@[k]).text@ == " "@ + filter_label_text(k) + " "@
                    && tabs@[k].active == (k == app@.filter),
        decreases FILTER_COUNT - i,
    {
        let mut text = String::from_str(" ");
        text.append(filter_label(i));
        text.append(" ");
        tabs.push(Tab { text, active: i == current });
        i += 1;
    }
    tabs
}

/// A row of the unit list: the state glyph in the colour of the active
/// state, then a space, then the unit's name.
#[derive(Clone, Debug)]
pub struct ListRow {
    pub dot: &'static str,
    pub tone: Tone,
    pub name: String,
}

/// The text of a list row: glyph, space, name.
pub open spec fn list_row_text(dot: Seq<char>, name: Seq<char>) -> Seq<char> {
    dot + " "@ + name
}

/// The rows of the unit list: one per visible unit, in order.
pub fn list_rows(app: &App) -> (rows: Vec<ListRow>)
    ensures
        rows.len() == app.visible_view().len(),
        forall|i: int|
            0 <= i < rows.len() ==> {
                let u = app.visible_view()[i];
                &&& (#[trigger] rows@[i]).dot@ == state_dot_text(u.active_state)
                &&& rows@[i].tone == active_tone_of(u.active_state)
                &&& rows@[i].name@ == u.name
            },
{
    let vis = app.visible();
    let mut rows: Vec<ListRow> = Vec::new();
    let mut i: usize = 0;
    while i < vis.len()
        invariant
            i <= vis.len(),
            refs_view(vis@) == app.visible_view(),
            rows.len() == i,
            forall|k: int|
                0 <= k < i ==> {
                    let u = app.visible_view()[k];
                    &&& (#[trigger] rows@[k]).dot@ == state_dot_text(u.active_state)
                    &&& rows@[k].tone == active_tone_of(u.active_state)
                    &&& rows@[k].name@ == u.name
                },
        decreases vis.len() - i,
    {
        let u = vis[i];
        assert(refs_view(vis@)[i as int] == u@);
        rows.push(
            ListRow {
                dot: state_dot(u.active_state.as_str()),
                tone: active_tone(u.active_state.as_str()),
                name: u.name.clone(),
            },
        );
        i += 1;
    }
    rows
}


/// The status section of a detail panel `h` rows high holds the first lines
/// of the status text, as many as fit below the nine header rows: `h - 9`
/// when the text has that many, all of them when it has fewer, none when
/// the panel is under nine rows.
pub proof fn law_status_section_fills_the_panel(t: Seq<char>, h: u16)
    ensures
        ({
            let shown = status_section_text(Some(Ok(t)), h);
            let all = text_lines(t);
            let room: int = if h >= 9 {
                h - 9
            } else {
                0
            };
            &&& shown.len() == if room < all.len() {
                room
            } else {
                all.len() as int
            }
            &&& forall|i: int| 0 <= i < shown.len() ==> #[trigger] shown[i] == all[i]
        }),
{
}

} // verus!
