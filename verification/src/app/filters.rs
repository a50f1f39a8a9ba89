//! The unit-type filter tabs shared by the browser state and the screen.

use vstd::prelude::*;

use crate::systemd::types::Unit;
use crate::text::ends_with;

verus! {

/// Number of filter tabs.
pub const FILTER_COUNT: usize = 6;

/// The tab's title.
pub open spec fn filter_label_text(idx: int) -> Seq<char> {
    if idx == 0 {
        "All"@
    } else {
        match filter_type_text(idx) {
            Some(t) => t,
            None => seq![],
        }
    }
}

/// The unit type the tab shows; `None` for the tab that shows all types.
pub open spec fn filter_type_text(idx: int) -> Option<Seq<char>> {
    if idx == 1 {
        Some("service"@)
    } else if idx == 2 {
        Some("socket"@)
    } else if idx == 3 {
        Some("timer"@)
    } else if idx == 4 {
        Some("target"@)
    } else if idx == 5 {
        Some("mount"@)
    } else {
        None
    }
}

/// Title of filter tab `idx`.
pub fn filter_label(idx: usize) -> (r: &'static str)
    requires
        idx < FILTER_COUNT,
    ensures
        r@ == filter_label_text(idx as int),
{
    if idx == 0 {
        "All"
    } else if idx == 1 {
        "service"
    } else if idx == 2 {
        "socket"
    } else if idx == 3 {
        "timer"
    } else if idx == 4 {
        "target"
    } else {
        "mount"
    }
}

/// Unit type that filter tab `idx` shows; `None` means all unit types.
pub fn filter_type(idx: usize) -> (r: Option<&'static str>)
    requires
        idx < FILTER_COUNT,
    ensures
        match r {
            Some(t) => filter_type_text(idx as int) == Some(t@),
            None => filter_type_text(idx as int) is None,
        },
{
    if idx == 1 {
        Some("service")
    } else if idx == 2 {
        Some("socket")
    } else if idx == 3 {
        Some("timer")
    } else if idx == 4 {
        Some("target")
    } else if idx == 5 {
        Some("mount")
    } else {
        None
    }
}

/// Whether a unit named `name` is shown by filter tab `idx`: every unit on
/// the tab of all types, else the units whose name ends with `.` and the
/// tab's type.
pub open spec fn unit_matches(name: Seq<char>, idx: int) -> bool {
    match filter_type_text(idx) {
        None => true,
        Some(t) => (seq!['.'] + t).is_suffix_of(name),
    }
}

/// Whether `u` is included by the filter at `filter_idx`.
pub fn matches_filter(u: &Unit, filter_idx: usize) -> (r: bool)
    requires
        filter_idx < FILTER_COUNT,
    ensures
        r == unit_matches(u.name@, filter_idx as int),
{
    match filter_type(filter_idx) {
        None => true,
        Some(t) => {
            let mut suffix = String::from_str(".");
            proof {
                reveal_strlit(".");
            }
            suffix.append(t);
            assert(suffix@ =~= seq!['.'] + t@);
            ends_with(u.name.as_str(), suffix.as_str())
        },
    }
}


/// Each tab shows the units whose name ends with `.` and the tab's title,
/// and the first tab shows every unit: All, service, socket, timer, target,
/// mount, in that order.
pub proof fn law_tabs_show_their_type(name: Seq<char>)
    ensures
        unit_matches(name, 0),
        filter_label_text(0) == "All"@,
        forall|i: int|
            1 <= i < FILTER_COUNT ==> #[trigger] unit_matches(name, i) == (seq!['.']
                + filter_label_text(i)).is_suffix_of(name),
        unit_matches(name, 1) == (seq!['.'] + "service"@).is_suffix_of(name),
        unit_matches(name, 2) == (seq!['.'] + "socket"@).is_suffix_of(name),
        unit_matches(name, 3) == (seq!['.'] + "timer"@).is_suffix_of(name),
        unit_matches(name, 4) == (seq!['.'] + "target"@).is_suffix_of(name),
        unit_matches(name, 5) == (seq!['.'] + "mount"@).is_suffix_of(name),
        filter_label_text(1) == "service"@,
        filter_label_text(2) == "socket"@,
        filter_label_text(3) == "timer"@,
        filter_label_text(4) == "target"@,
        filter_label_text(5) == "mount"@,
{
}

} // verus!
