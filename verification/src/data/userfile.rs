//! The player's progress record.

use vstd::prelude::*;
use vstd::string::StringExecFns;
use crate::data::rods::{Rod, RodData};
use crate::text::str_eq;

verus! {

/// What is kept of a player between sessions.
#[derive(Debug)]
pub struct UserValues {
    pub fish_caught: u32,
    pub money: u32,
    /// The name of the archetype of the rod in use.
    pub rod_name: String,
    /// The name of that rod's modifier, if it has one.
    pub rod_modifier: Option<String>,
    /// The names of the species caught so far, in the order of their first
    /// catch, each once.
    pub has_seen: Vec<String>,
}

/// A progress record as plain values.
pub struct UserValuesView {
    pub fish_caught: nat,
    pub money: nat,
    pub rod_name: Seq<char>,
    pub rod_modifier: Option<Seq<char>>,
    pub has_seen: Seq<Seq<char>>,
}

impl UserValuesView {
    /// The record after a catch of `species` worth `value`: one more fish,
    /// `value` more money, neither above what a `u32` holds, and the species
    /// added to those seen unless it is among them.
    pub open spec fn spec_record_catch(self, value: nat, species: Seq<char>) -> UserValuesView {
        UserValuesView {
            fish_caught: if self.fish_caught + 1 > u32::MAX {
                u32::MAX as nat
            } else {
                self.fish_caught + 1
            },
            money: if self.money + value > u32::MAX {
                u32::MAX as nat
            } else {
                self.money + value
            },
            rod_name: self.rod_name,
            rod_modifier: self.rod_modifier,
            has_seen: if self.has_seen.contains(species) {
                self.has_seen
            } else {
                self.has_seen.push(species)
            },
        }
    }
}

/// Booking a catch keeps the species seen distinct: where no name stood
/// twice before, none does after.
pub proof fn lemma_record_catch_keeps_distinct(
    progress: UserValuesView,
    value: nat,
    species: Seq<char>,
)
    requires
        progress.has_seen.no_duplicates(),
    ensures
        progress.spec_record_catch(value, species).has_seen.no_duplicates(),
        progress.spec_record_catch(value, species).has_seen.contains(species),
{
    let after = progress.spec_record_catch(value, species).has_seen;
    if !progress.has_seen.contains(species) {
        assert(after[after.len() - 1] == species);
    }
}

impl View for UserValues {
    type V = UserValuesView;

    open spec fn view(&self) -> UserValuesView {
        UserValuesView {
            fish_caught: self.fish_caught as nat,
            money: self.money as nat,
            rod_name: self.rod_name@,
            rod_modifier: match self.rod_modifier {
                Some(name) => Some(name@),
                None => None,
            },
            has_seen: self.has_seen.deep_view(),
        }
    }
}

impl Clone for UserValues {
    fn clone(&self) -> (copy: Self)
        ensures
            copy@ == self@,
    {
        let has_seen = self.has_seen.clone();
        UserValues {
            fish_caught: self.fish_caught,
            money: self.money,
            rod_name: self.rod_name.clone(),
            rod_modifier: match &self.rod_modifier {
                Some(name) => Some(name.clone()),
                None => None,
            },
            has_seen,
        }
    }
}

impl Default for UserValues {
    /// A new player: no fish, no money, the starting rod.
    fn default() -> (fresh: Self)
        ensures
            fresh@ == (UserValuesView {
                fish_caught: 0,
                money: 0,
                rod_name: "Stick with String"@,
                rod_modifier: None,
                has_seen: Seq::empty(),
            }),
    {
        let fresh = UserValues {
            fish_caught: 0,
            money: 0,
            rod_name: String::from_str("Stick with String"),
            rod_modifier: None,
            has_seen: Vec::new(),
        };
        assert(fresh.has_seen.deep_view() =~= Seq::<Seq<char>>::empty());
        fresh
    }
}

impl UserValues {
    /// The rod in use: the archetype and the modifier that the record
    /// names. An archetype name that the catalogue no longer knows gives the
    /// default archetype, a modifier name that it no longer knows gives no
    /// modifier.
    pub open spec fn spec_get_rod(&self, rod_data: &RodData) -> Rod {
        Rod {
            base: rod_data.spec_base_or_default(self@.rod_name),
            modifier: rod_data.spec_modifier_or_none(self@.rod_modifier),
        }
    }

    /// Whether the catalogue knows the archetype and the modifier that the
    /// record names.
    pub open spec fn spec_has_known_rod(&self, rod_data: &RodData) -> bool {
        &&& rod_data.spec_knows_base(self@.rod_name)
        &&& match self@.rod_modifier {
            Some(name) => rod_data.spec_knows_modifier(name),
            None => true,
        }
    }

    /// The rod in use, with the default archetype in place of an unknown
    /// one and no modifier in place of an unknown one.
    pub fn get_rod(&self, rod_data: &RodData) -> (rod: Rod)
        requires
            rod_data.well_formed(),
        ensures
            rod == self.spec_get_rod(rod_data),
    {
        let base = rod_data.base_or_default(self.rod_name.as_str());
        let modifier = rod_data.modifier_or_none(&self.rod_modifier);
        Rod { base, modifier }
    }

    /// Whether the catalogue knows the archetype and the modifier that the
    /// record names; where it does not, [`UserValues::get_rod`] falls back.
    pub fn has_known_rod(&self, rod_data: &RodData) -> (known: bool)
        ensures
            known == self.spec_has_known_rod(rod_data),
    {
        let base = rod_data.get_base_by_name(self.rod_name.as_str());
        if base.is_none() {
            return false;
        }
        match &self.rod_modifier {
            Some(name) => {
                let modifier = rod_data.get_modifier_by_name(name.as_str());
                modifier.is_some()
            },
            None => true,
        }
    }

    /// Whether a species of this name has been caught before.
    pub fn has_seen_species(&self, species: &str) -> (seen: bool)
        ensures
            seen == self@.has_seen.contains(species@),
    {
        let mut i: usize = 0;
        while i < self.has_seen.len()
            invariant
                i <= self.has_seen@.len(),
                forall|j: int| 0 <= j < i ==> self.has_seen@[j]@ != species@,
            decreases self.has_seen@.len() - i,
        {
            if str_eq(self.has_seen[i].as_str(), species) {
                assert(self@.has_seen[i as int] == species@);
                return true;
            }
            i += 1;
        }
        assert forall|j: int| 0 <= j < self@.has_seen.len() implies self@.has_seen[j]
            != species@ by {
        }
        false
    }

    /// Books a catch of `species` worth `value`.
    pub fn record_catch(&mut self, value: u32, species: &str)
        ensures
            final(self)@ == old(self)@.spec_record_catch(value as nat, species@),
    {
        let seen = self.has_seen_species(species);
        self.fish_caught = self.fish_caught.saturating_add(1);
        self.money = self.money.saturating_add(value);
        if !seen {
            self.has_seen.push(String::from_str(species));
            assert(self.has_seen.deep_view() =~= old(self).has_seen.deep_view().push(species@));
        }
    }
}

/// Where the progress record is kept.
pub fn get_userfile_path() -> (path: String)
    ensures
        path@ == "./data/udat.json"@,
{
    String::from_str("./data/udat.json")
}

} // verus!
