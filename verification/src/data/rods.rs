//! Rod archetypes, modifiers, the rod catalogue and the rods built from it.

use vstd::prelude::*;
use vstd::string::StringExecFns;
use crate::data::shop::RodRarity;
use crate::random::{random_index, random_range};
use crate::text::str_eq;

verus! {

/// A rod archetype of the catalogue.
#[derive(Debug)]
pub struct BaseRod {
    pub name: String,
    pub description: String,
    /// The chance that a cast ends with a catch, in thousandths.
    pub catch_chance: u32,
    /// The average time a cast takes, in milliseconds; lower is faster.
    pub catch_rate: u32,
    /// The greatest depth the rod reaches.
    pub depth: u32,
    /// The heaviest fish the line holds, in whole pounds.
    pub weight_limit: u32,
    /// The price in hundredths of a currency unit.
    pub cost: u32,
    pub rarity: RodRarity,
}

impl Clone for BaseRod {
    fn clone(&self) -> (copy: Self)
        ensures
            copy == *self,
    {
        BaseRod {
            name: self.name.clone(),
            description: self.description.clone(),
            catch_chance: self.catch_chance,
            catch_rate: self.catch_rate,
            depth: self.depth,
            weight_limit: self.weight_limit,
            cost: self.cost,
            rarity: self.rarity,
        }
    }
}

impl BaseRod {
    /// Whether the archetype has these figures.
    pub open spec fn spec_is(
        &self,
        name: Seq<char>,
        description: Seq<char>,
        catch_chance: int,
        catch_rate: int,
        depth: int,
        weight_limit: int,
        cost: int,
        rarity: RodRarity,
    ) -> bool {
        &&& self.name@ == name
        &&& self.description@ == description
        &&& self.catch_chance == catch_chance
        &&& self.catch_rate == catch_rate
        &&& self.depth == depth
        &&& self.weight_limit == weight_limit
        &&& self.cost == cost
        &&& self.rarity == rarity
    }

    /// The price in whole currency units: the cost rounded to the nearest
    /// unit, halves upwards.
    pub open spec fn spec_price(&self) -> int {
        (self.cost + 50) / 100
    }

    /// The price in whole currency units.
    pub fn price(&self) -> (price: u32)
        ensures
            price == self.spec_price(),
    {
        ((self.cost as u64 + 50) / 100) as u32
    }
}

/// A named set of changes that is added to an archetype's figures, each in
/// the unit of the figure it changes.
#[derive(Debug)]
pub struct RodModifier {
    pub name: String,
    pub catch_chance: i32,
    pub catch_rate: i32,
    pub depth: i32,
    pub weight_limit: i32,
}

impl Clone for RodModifier {
    fn clone(&self) -> (copy: Self)
        ensures
            copy == *self,
    {
        RodModifier {
            name: self.name.clone(),
            catch_chance: self.catch_chance,
            catch_rate: self.catch_rate,
            depth: self.depth,
            weight_limit: self.weight_limit,
        }
    }
}

impl RodModifier {
    /// Whether the modifier has these figures.
    pub open spec fn spec_is(
        &self,
        name: Seq<char>,
        catch_chance: int,
        catch_rate: int,
        depth: int,
        weight_limit: int,
    ) -> bool {
        &&& self.name@ == name
        &&& self.catch_chance == catch_chance
        &&& self.catch_rate == catch_rate
        &&& self.depth == depth
        &&& self.weight_limit == weight_limit
    }
}

/// `value` brought into the range of a `u32`: negative sums count as 0.
pub open spec fn spec_clamp(value: int) -> int {
    if value < 0 {
        0
    } else if value > u32::MAX {
        u32::MAX as int
    } else {
        value
    }
}

fn clamped_sum(base: u32, change: i32) -> (sum: u32)
    ensures
        sum == spec_clamp(base + change),
{
    let total: i64 = base as i64 + change as i64;
    if total < 0 {
        0
    } else if total > u32::MAX as i64 {
        u32::MAX
    } else {
        total as u32
    }
}

/// The rod catalogue: the archetypes and the modifiers that can be put on them.
#[derive(Debug)]
pub struct RodData {
    pub rods: Vec<BaseRod>,
    pub modifiers: Vec<RodModifier>,
}

impl RodData {
    /// The catalogue holds at least one archetype. The first archetype is
    /// the default one, which stands in for a name that the catalogue does
    /// not know.
    pub open spec fn well_formed(&self) -> bool {
        self.rods@.len() > 0
    }

    /// Whether some archetype has the rarity.
    pub open spec fn spec_has_rarity(&self, rarity: RodRarity) -> bool {
        exists|i: int| 0 <= i < self.rods@.len() && (#[trigger] self.rods@[i]).rarity == rarity
    }

    /// Whether some archetype is called `name`.
    pub open spec fn spec_knows_base(&self, name: Seq<char>) -> bool {
        exists|i: int| 0 <= i < self.rods@.len() && (#[trigger] self.rods@[i]).name@ == name
    }

    /// Whether the archetype at `i` is the first one called `name`.
    pub open spec fn spec_first_base(&self, name: Seq<char>, i: int) -> bool {
        &&& 0 <= i < self.rods@.len()
        &&& self.rods@[i].name@ == name
        &&& forall|j: int| 0 <= j < i ==> (#[trigger] self.rods@[j]).name@ != name
    }

    /// Whether some modifier is called `name`.
    pub open spec fn spec_knows_modifier(&self, name: Seq<char>) -> bool {
        exists|i: int|
            0 <= i < self.modifiers@.len() && (#[trigger] self.modifiers@[i]).name@ == name
    }

    /// Whether the modifier at `i` is the first one called `name`.
    pub open spec fn spec_first_modifier(&self, name: Seq<char>, i: int) -> bool {
        &&& 0 <= i < self.modifiers@.len()
        &&& self.modifiers@[i].name@ == name
        &&& forall|j: int| 0 <= j < i ==> (#[trigger] self.modifiers@[j]).name@ != name
    }

    /// Whether the archetype at `i` may be handed out for `rarity`: it has
    /// that rarity, or no archetype has it and any will do.
    pub open spec fn spec_eligible(&self, rarity: RodRarity, i: int) -> bool {
        &&& 0 <= i < self.rods@.len()
        &&& self.rods@[i].rarity == rarity || !self.spec_has_rarity(rarity)
    }

    /// Whether `name` is the name of an archetype that may be handed out for
    /// `rarity`.
    pub open spec fn spec_offers(&self, rarity: RodRarity, name: Seq<char>) -> bool {
        exists|i: int| #[trigger] self.spec_eligible(rarity, i) && self.rods@[i].name@ == name
    }

    /// The modifier that two draws select: with `chance` under 10, out of
    /// 100, the modifier at `index`; else none.
    pub open spec fn spec_modifier_for(&self, chance: int, index: int) -> Option<RodModifier> {
        if chance < 10 && 0 <= index < self.modifiers@.len() {
            Some(self.modifiers@[index])
        } else {
            None
        }
    }

    /// The first archetype called `name`, or the default archetype where the
    /// catalogue knows no such name.
    pub open spec fn spec_base_or_default(&self, name: Seq<char>) -> BaseRod {
        if self.spec_knows_base(name) {
            self.rods@[choose|i: int| self.spec_first_base(name, i)]
        } else {
            self.rods@[0]
        }
    }

    /// The first modifier called `name`, if a name is given and the
    /// catalogue knows it.
    pub open spec fn spec_modifier_or_none(&self, name: Option<Seq<char>>) -> Option<RodModifier> {
        match name {
            Some(name) => if self.spec_knows_modifier(name) {
                Some(self.modifiers@[choose|i: int| self.spec_first_modifier(name, i)])
            } else {
                None
            },
            None => None,
        }
    }

    /// Whether the catalogue holds an archetype.
    pub fn is_well_formed(&self) -> (ok: bool)
        ensures
            ok == self.well_formed(),
    {
        self.rods.len() > 0
    }

    /// The first archetype called `name`, if there is one.
    pub fn get_base_by_name(&self, name: &str) -> (found: Option<BaseRod>)
        ensures
            match found {
                Some(rod) => exists|i: int|
                    #[trigger] self.spec_first_base(name@, i) && rod == self.rods@[i],
                None => !self.spec_knows_base(name@),
            },
    {
        let mut i: usize = 0;
        while i < self.rods.len()
            invariant
                i <= self.rods@.len(),
                forall|j: int| 0 <= j < i ==> (#[trigger] self.rods@[j]).name@ != name@,
            decreases self.rods@.len() - i,
        {
            if str_eq(self.rods[i].name.as_str(), name) {
                assert(self.spec_first_base(name@, i as int));
                return Some(self.rods[i].clone());
            }
            i += 1;
        }
        None
    }

    /// The first modifier called `name`, if there is one.
    pub fn get_modifier_by_name(&self, name: &str) -> (found: Option<RodModifier>)
        ensures
            match found {
                Some(modifier) => exists|i: int|
                    #[trigger] self.spec_first_modifier(name@, i) && modifier
                        == self.modifiers@[i],
                None => !self.spec_knows_modifier(name@),
            },
    {
        let mut i: usize = 0;
        while i < self.modifiers.len()
            invariant
                i <= self.modifiers@.len(),
                forall|j: int| 0 <= j < i ==> (#[trigger] self.modifiers@[j]).name@ != name@,
            decreases self.modifiers@.len() - i,
        {
            if str_eq(self.modifiers[i].name.as_str(), name) {
                assert(self.spec_first_modifier(name@, i as int));
                return Some(self.modifiers[i].clone());
            }
            i += 1;
        }
        None
    }

    /// The archetype called `name`. A name that the catalogue does not know
    /// gives the default archetype, the first of the catalogue.
    pub fn base_or_default(&self, name: &str) -> (rod: BaseRod)
        requires
            self.well_formed(),
        ensures
            rod == self.spec_base_or_default(name@),
    {
        match self.get_base_by_name(name) {
            Some(rod) => rod,
            None => self.rods[0].clone(),
        }
    }

    /// The modifier called `name`. No name, or one that the catalogue does
    /// not know, gives no modifier.
    pub fn modifier_or_none(&self, name: &Option<String>) -> (modifier: Option<RodModifier>)
        ensures
            modifier == self.spec_modifier_or_none(
                match name {
                    Some(name) => Some(name@),
                    None => None,
                },
            ),
    {
        match name {
            Some(name) => {
                let found = self.get_modifier_by_name(name.as_str());
                found
            },
            None => None,
        }
    }

    /// The modifier that two draws select.
    pub fn modifier_for(&self, chance: u32, index: usize) -> (modifier: Option<RodModifier>)
        ensures
            modifier == self.spec_modifier_for(chance as int, index as int),
    {
        if chance < 10 && index < self.modifiers.len() {
            Some(self.modifiers[index].clone())
        } else {
            None
        }
    }

    /// Rolls for a modifier: one time in ten a modifier drawn uniformly from
    /// the catalogue, else none. A catalogue without modifiers gives none.
    pub fn generate_modifier(&self) -> (modifier: Option<RodModifier>)
        ensures
            exists|chance: int, index: int|
                0 <= chance < 100 && modifier == #[trigger] self.spec_modifier_for(chance, index),
            modifier matches Some(m) ==> self.modifiers@.contains(m),
    {
        let chance = random_range(0, 100) as u32;
        if chance < 10 && self.modifiers.len() > 0 {
            let index = random_index(self.modifiers.len());
            self.modifier_for(chance, index)
        } else {
            assert(None::<RodModifier> == self.spec_modifier_for(chance as int, -1));
            None
        }
    }

    /// The places of the archetypes that may be handed out for `rarity`, in
    /// catalogue order: those of that rarity, or all where there is none.
    pub fn candidates(&self, rarity: RodRarity) -> (pool: Vec<usize>)
        ensures
            forall|k: int|
                0 <= k < pool@.len() ==> self.spec_eligible(rarity, #[trigger] pool@[k] as int),
            forall|i: int| #[trigger] self.spec_eligible(rarity, i) ==> pool@.contains(i as usize),
            forall|j: int, k: int| 0 <= j < k < pool@.len() ==> pool@[j] < pool@[k],
    {
        let mut pool: Vec<usize> = Vec::new();
        let mut i: usize = 0;
        while i < self.rods.len()
            invariant
                i <= self.rods@.len(),
                forall|k: int|
                    0 <= k < pool@.len() ==> (#[trigger] pool@[k]) < i
                        && self.rods@[pool@[k] as int].rarity == rarity,
                forall|j: int|
                    0 <= j < i && (#[trigger] self.rods@[j]).rarity == rarity ==> pool@.contains(
                        j as usize,
                    ),
                forall|j: int, k: int| 0 <= j < k < pool@.len() ==> pool@[j] < pool@[k],
            decreases self.rods@.len() - i,
        {
            if self.rods[i].rarity == rarity {
                let ghost before = pool@;
                pool.push(i);
                assert(pool@[before.len() as int] == i);
                assert forall|j: int|
                    0 <= j < i + 1 && (#[trigger] self.rods@[j]).rarity
                        == rarity implies pool@.contains(j as usize) by {
                    if j < i {
                        let k = choose|k: int| 0 <= k < before.len() && before[k] == j as usize;
                        assert(pool@[k] == j as usize);
                    }
                }
            }
            i += 1;
        }
        if pool.len() > 0 {
            assert(self.rods@[pool@[0] as int].rarity == rarity);
            return pool;
        }
        assert(!self.spec_has_rarity(rarity));
        let mut i: usize = 0;
        while i < self.rods.len()
            invariant
                i <= self.rods@.len(),
                pool@.len() == i,
                forall|k: int| 0 <= k < i ==> pool@[k] == k,
            decreases self.rods@.len() - i,
        {
            pool.push(i);
            i += 1;
        }
        assert forall|i: int| #[trigger] self.spec_eligible(rarity, i) implies pool@.contains(
            i as usize,
        ) by {
            assert(pool@[i] == i as usize);
        }
        pool
    }

    /// Draws an archetype of `rarity`, uniformly among those of that rarity.
    /// Where the catalogue has none of it, any archetype is drawn instead.
    pub fn generate_rod_base(&self, rarity: RodRarity) -> (rod: BaseRod)
        requires
            self.well_formed(),
        ensures
            exists|i: int| #[trigger] self.spec_eligible(rarity, i) && rod == self.rods@[i],
    {
        let pool = self.candidates(rarity);
        proof {
            if self.spec_has_rarity(rarity) {
                let j = choose|j: int|
                    0 <= j < self.rods@.len() && (#[trigger] self.rods@[j]).rarity == rarity;
                assert(self.spec_eligible(rarity, j));
            } else {
                assert(self.spec_eligible(rarity, 0));
            }
        }
        let place = pool[random_index(pool.len())];
        self.rods[place].clone()
    }

    /// Generates a rod: an archetype drawn for `rarity`, and a modifier one
    /// time in ten.
    pub fn generate_rod(&self, rarity: RodRarity) -> (rod: Rod)
        requires
            self.well_formed(),
        ensures
            exists|i: int| #[trigger] self.spec_eligible(rarity, i) && rod.base == self.rods@[i],
            rod.modifier matches Some(m) ==> self.modifiers@.contains(m),
    {
        let base = self.generate_rod_base(rarity);
        let modifier = self.generate_modifier();
        Rod { base, modifier }
    }
}

/// A rod in play: an archetype with at most one modifier.
#[derive(Debug)]
pub struct Rod {
    pub base: BaseRod,
    pub modifier: Option<RodModifier>,
}

impl Clone for Rod {
    fn clone(&self) -> (copy: Self)
        ensures
            copy == *self,
    {
        let modifier = match &self.modifier {
            Some(m) => Some(m.clone()),
            None => None,
        };
        Rod { base: self.base.clone(), modifier }
    }
}

impl Rod {
    /// The time an average cast takes, in whole seconds.
    pub open spec fn spec_catch_rate(&self) -> int {
        match self.modifier {
            Some(m) => spec_clamp(self.base.catch_rate + m.catch_rate) / 1000,
            None => self.base.catch_rate as int / 1000,
        }
    }

    /// The chance of a catch in thousandths.
    pub open spec fn spec_catch_chance(&self) -> int {
        match self.modifier {
            Some(m) => spec_clamp(self.base.catch_chance + m.catch_chance),
            None => self.base.catch_chance as int,
        }
    }

    /// The depth the rod reaches.
    pub open spec fn spec_depth(&self) -> int {
        match self.modifier {
            Some(m) => spec_clamp(self.base.depth + m.depth),
            None => self.base.depth as int,
        }
    }

    /// The heaviest fish the line holds, in whole pounds.
    pub open spec fn spec_weight_limit(&self) -> int {
        match self.modifier {
            Some(m) => spec_clamp(self.base.weight_limit + m.weight_limit),
            None => self.base.weight_limit as int,
        }
    }

    /// The time a cast takes for a drawn multiplier, in milliseconds.
    pub open spec fn spec_catch_time(&self, multiplier: int) -> int {
        self.spec_catch_rate() * multiplier
    }

    /// The rod as named to the player: the modifier's name, if there is a
    /// modifier, before the archetype's.
    pub open spec fn spec_name(&self) -> Seq<char> {
        match self.modifier {
            Some(m) => m.name@ + " "@ + self.base.name@,
            None => self.base.name@,
        }
    }

    /// The archetype's catch rate plus the modifier's change, never below
    /// zero, cut down to whole seconds.
    pub fn get_catch_rate(&self) -> (seconds: u32)
        ensures
            seconds == self.spec_catch_rate(),
    {
        match &self.modifier {
            Some(m) => clamped_sum(self.base.catch_rate, m.catch_rate) / 1000,
            None => self.base.catch_rate / 1000,
        }
    }

    /// The archetype's catch chance plus the modifier's change, never below
    /// zero, in thousandths.
    pub fn get_catch_chance(&self) -> (chance: u32)
        ensures
            chance == self.spec_catch_chance(),
    {
        match &self.modifier {
            Some(m) => clamped_sum(self.base.catch_chance, m.catch_chance),
            None => self.base.catch_chance,
        }
    }

    /// The archetype's depth plus the modifier's change, never below zero.
    pub fn get_depth(&self) -> (depth: u32)
        ensures
            depth == self.spec_depth(),
    {
        match &self.modifier {
            Some(m) => clamped_sum(self.base.depth, m.depth),
            None => self.base.depth,
        }
    }

    /// The archetype's weight limit plus the modifier's change, never below
    /// zero.
    pub fn get_weight_limit(&self) -> (limit: u32)
        ensures
            limit == self.spec_weight_limit(),
    {
        match &self.modifier {
            Some(m) => clamped_sum(self.base.weight_limit, m.weight_limit),
            None => self.base.weight_limit,
        }
    }

    /// The time a cast takes when the drawn multiplier, in thousandths, is
    /// `multiplier`: the catch rate in seconds times the multiplier, which
    /// gives milliseconds.
    pub fn catch_time(&self, multiplier: u32) -> (millis: u64)
        ensures
            millis == self.spec_catch_time(multiplier as int),
    {
        let rate = self.get_catch_rate() as u64;
        assert(rate * multiplier <= u32::MAX * u32::MAX) by (nonlinear_arith)
            requires
                rate <= u32::MAX,
                multiplier <= u32::MAX,
        ;
        rate * (multiplier as u64)
    }

    /// The time this cast takes: the catch rate times a multiplier drawn
    /// uniformly between 0.8 and 1.2, in milliseconds.
    pub fn random_catch_time(&self) -> (millis: u64)
        ensures
            exists|multiplier: int|
                800 <= multiplier < 1200 && millis == #[trigger] self.spec_catch_time(multiplier),
    {
        let multiplier = random_range(800, 1200) as u32;
        self.catch_time(multiplier)
    }

    /// The rod as named to the player.
    pub fn to_string(&self) -> (name: String)
        ensures
            name@ == self.spec_name(),
    {
        match &self.modifier {
            Some(m) => {
                let mut name = m.name.clone();
                name.append(" ");
                name.append(self.base.name.as_str());
                name
            },
            None => self.base.name.clone(),
        }
    }
}

} // verus!
