//! The unit model.

use vstd::prelude::*;

verus! {

/// A systemd unit as reported by `systemctl list-units`.
#[derive(Clone, Debug)]
pub struct Unit {
    pub name: String,
    pub load_state: String,
    pub active_state: String,
    pub sub_state: String,
    pub description: String,
}

/// The text of each field of a [`Unit`].
pub struct UnitView {
    pub name: Seq<char>,
    pub load_state: Seq<char>,
    pub active_state: Seq<char>,
    pub sub_state: Seq<char>,
    pub description: Seq<char>,
}

impl View for Unit {
    type V = UnitView;

    open spec fn view(&self) -> UnitView {
        UnitView {
            name: self.name@,
            load_state: self.load_state@,
            active_state: self.active_state@,
            sub_state: self.sub_state@,
            description: self.description@,
        }
    }
}

/// The view of each unit of a sequence.
pub open spec fn units_view(units: Seq<Unit>) -> Seq<UnitView> {
    units.map_values(|u: Unit| u@)
}

impl PartialEq for Unit {
    fn eq(&self, other: &Self) -> (r: bool) {
        self.name == other.name && self.load_state == other.load_state && self.active_state
            == other.active_state && self.sub_state == other.sub_state && self.description
            == other.description
    }
}

impl vstd::std_specs::cmp::PartialEqSpecImpl for Unit {
    open spec fn obeys_eq_spec() -> bool {
        true
    }

    open spec fn eq_spec(&self, other: &Self) -> bool {
        self@ == other@
    }
}

impl Eq for Unit {

}

/// Whether a unit is enabled at boot.
#[derive(Clone, Copy, Debug, PartialEq, Eq, Structural)]
pub enum Enabled {
    Enabled,
    Disabled,
    Static,
    Masked,
    Other,
}

impl Enabled {
    /// The word that names the state.
    pub open spec fn label_text(self) -> Seq<char> {
        match self {
            Enabled::Enabled => "enabled"@,
            Enabled::Disabled => "disabled"@,
            Enabled::Static => "static"@,
            Enabled::Masked => "masked"@,
            Enabled::Other => "other"@,
        }
    }

    pub fn label(self) -> (r: &'static str)
        ensures
            r@ == self.label_text(),
    {
        match self {
            Enabled::Enabled => "enabled",
            Enabled::Disabled => "disabled",
            Enabled::Static => "static",
            Enabled::Masked => "masked",
            Enabled::Other => "other",
        }
    }
}

} // verus!
