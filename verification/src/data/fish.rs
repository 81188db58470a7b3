//! Fish rarities, species, the species catalogue and caught fish.

use vstd::prelude::*;
use vstd::string::StringExecFns;
use crate::random::{random_index, random_range};
use crate::data::rods::Rod;
use crate::text::str_eq;

verus! {

/// How rare a catch is, from the most common tier to the rarest.
#[derive(Debug, Clone, Copy, PartialEq, Eq, Structural)]
pub enum FishRarity {
    Common,
    Uncommon,
    Rare,
    Elusive,
    Legendary,
    Mythical,
}

impl FishRarity {
    /// The sampling weight of the tier, out of [`FishRarity::spec_total_weight`].
    pub open spec fn spec_weight(self) -> int {
        match self {
            FishRarity::Common => 400,
            FishRarity::Uncommon => 300,
            FishRarity::Rare => 200,
            FishRarity::Elusive => 89,
            FishRarity::Legendary => 10,
            FishRarity::Mythical => 1,
        }
    }

    /// The rank of the tier: 0 for the most common, 5 for the rarest.
    pub open spec fn spec_ident(self) -> int {
        match self {
            FishRarity::Common => 0,
            FishRarity::Uncommon => 1,
            FishRarity::Rare => 2,
            FishRarity::Elusive => 3,
            FishRarity::Legendary => 4,
            FishRarity::Mythical => 5,
        }
    }

    /// The tier of a rank; ranks outside `0..=5` name no tier and read as `Common`.
    pub open spec fn spec_of_ident(ident: int) -> FishRarity {
        if ident == 1 {
            FishRarity::Uncommon
        } else if ident == 2 {
            FishRarity::Rare
        } else if ident == 3 {
            FishRarity::Elusive
        } else if ident == 4 {
            FishRarity::Legendary
        } else if ident == 5 {
            FishRarity::Mythical
        } else {
            FishRarity::Common
        }
    }

    /// The summed weight of the tiers of rank `0..=ident`.
    pub open spec fn spec_weight_through(ident: int) -> int
        decreases ident + 1,
    {
        if ident < 0 {
            0
        } else {
            Self::spec_weight_through(ident - 1) + Self::spec_of_ident(ident).spec_weight()
        }
    }

    /// The denominator of the table: the summed weight of all tiers.
    pub open spec fn spec_total_weight() -> int {
        Self::spec_weight_through(5)
    }

    /// Whether the draw `num` falls in the band of this tier, when the tiers
    /// are laid side by side from `Common` upwards starting at 1.
    pub open spec fn spec_holds(self, num: int) -> bool {
        Self::spec_weight_through(self.spec_ident() - 1) < num <= Self::spec_weight_through(
            self.spec_ident(),
        )
    }

    /// The factor applied to a catch's value, in thousandths.
    pub open spec fn spec_value_multiplier(self) -> int {
        match self {
            FishRarity::Common => 1000,
            FishRarity::Uncommon => 1500,
            FishRarity::Rare => 2000,
            FishRarity::Elusive => 3000,
            FishRarity::Legendary => 5000,
            FishRarity::Mythical => 10000,
        }
    }

    /// The tier's name as shown to the player.
    pub open spec fn spec_name(self) -> Seq<char> {
        match self {
            FishRarity::Common => "Common"@,
            FishRarity::Uncommon => "Uncommon"@,
            FishRarity::Rare => "Rare"@,
            FishRarity::Elusive => "Elusive"@,
            FishRarity::Legendary => "Legendary"@,
            FishRarity::Mythical => "Mythical"@,
        }
    }

    /// The sampling weight of the tier.
    pub fn get_weight(&self) -> (weight: u16)
        ensures
            weight == self.spec_weight(),
    {
        match self {
            FishRarity::Common => 400,
            FishRarity::Uncommon => 300,
            FishRarity::Rare => 200,
            FishRarity::Elusive => 89,
            FishRarity::Legendary => 10,
            FishRarity::Mythical => 1,
        }
    }

    /// The rank of the tier: 0 for the most common, 5 for the rarest.
    pub fn ident(&self) -> (ident: u8)
        ensures
            ident == self.spec_ident(),
    {
        match self {
            FishRarity::Common => 0,
            FishRarity::Uncommon => 1,
            FishRarity::Rare => 2,
            FishRarity::Elusive => 3,
            FishRarity::Legendary => 4,
            FishRarity::Mythical => 5,
        }
    }

    /// The value factor of the tier in thousandths: 1000 leaves a value as it is.
    pub fn value_multiplier(&self) -> (factor: u32)
        ensures
            factor == self.spec_value_multiplier(),
    {
        match self {
            FishRarity::Common => 1000,
            FishRarity::Uncommon => 1500,
            FishRarity::Rare => 2000,
            FishRarity::Elusive => 3000,
            FishRarity::Legendary => 5000,
            FishRarity::Mythical => 10000,
        }
    }

    /// The tier called `rarity`, if there is one.
    pub fn from_string(rarity: &str) -> (found: Option<FishRarity>)
        ensures
            match found {
                Some(tier) => rarity@ == tier.spec_name(),
                None => forall|tier: FishRarity| rarity@ != #[trigger] tier.spec_name(),
            },
    {
        if str_eq(rarity, "Common") {
            Some(FishRarity::Common)
        } else if str_eq(rarity, "Uncommon") {
            Some(FishRarity::Uncommon)
        } else if str_eq(rarity, "Rare") {
            Some(FishRarity::Rare)
        } else if str_eq(rarity, "Elusive") {
            Some(FishRarity::Elusive)
        } else if str_eq(rarity, "Legendary") {
            Some(FishRarity::Legendary)
        } else if str_eq(rarity, "Mythical") {
            Some(FishRarity::Mythical)
        } else {
            None
        }
    }

    /// The tier's name.
    pub fn to_string(&self) -> (name: String)
        ensures
            name@ == self.spec_name(),
    {
        match self {
            FishRarity::Common => String::from_str("Common"),
            FishRarity::Uncommon => String::from_str("Uncommon"),
            FishRarity::Rare => String::from_str("Rare"),
            FishRarity::Elusive => String::from_str("Elusive"),
            FishRarity::Legendary => String::from_str("Legendary"),
            FishRarity::Mythical => String::from_str("Mythical"),
        }
    }

    /// The tier that a draw selects: the tiers are walked from `Common`
    /// upwards while their weights are summed, and the first tier whose
    /// running sum reaches `num` is taken. A draw that no band holds (0, or
    /// one above the total weight) selects `Common`.
    pub fn from_draw(num: u16) -> (rarity: FishRarity)
        ensures
            1 <= num <= Self::spec_total_weight() ==> rarity.spec_holds(num as int),
            !(1 <= num <= Self::spec_total_weight()) ==> rarity == FishRarity::Common,
    {
        proof {
            reveal_with_fuel(FishRarity::spec_weight_through, 8);
        }
        let mut current_weight: u16 = 0;
        if num <= current_weight + FishRarity::Common.get_weight() {
            return FishRarity::Common;
        }
        current_weight += FishRarity::Common.get_weight();
        if num <= current_weight + FishRarity::Uncommon.get_weight() {
            return FishRarity::Uncommon;
        }
        current_weight += FishRarity::Uncommon.get_weight();
        if num <= current_weight + FishRarity::Rare.get_weight() {
            return FishRarity::Rare;
        }
        current_weight += FishRarity::Rare.get_weight();
        if num <= current_weight + FishRarity::Elusive.get_weight() {
            return FishRarity::Elusive;
        }
        current_weight += FishRarity::Elusive.get_weight();
        if num <= current_weight + FishRarity::Legendary.get_weight() {
            return FishRarity::Legendary;
        }
        current_weight += FishRarity::Legendary.get_weight();
        if num <= current_weight + FishRarity::Mythical.get_weight() {
            return FishRarity::Mythical;
        }
        FishRarity::Common
    }

    /// Draws a tier with probability proportional to its weight: one uniform
    /// draw from `1..=1000`, handed to [`FishRarity::from_draw`].
    pub fn weighted_random() -> (rarity: FishRarity)
        ensures
            exists|num: int| 1 <= num <= Self::spec_total_weight() && rarity.spec_holds(num),
    {
        proof {
            reveal_with_fuel(FishRarity::spec_weight_through, 8);
        }
        let num = random_range(1, 1001) as u16;
        Self::from_draw(num)
    }
}

impl std::str::FromStr for FishRarity {
    type Err = ();

    /// The tier called `s`.
    fn from_str(s: &str) -> (parsed: Result<Self, ()>)
        ensures
            match parsed {
                Ok(tier) => s@ == tier.spec_name(),
                Err(_) => forall|tier: FishRarity| s@ != #[trigger] tier.spec_name(),
            },
    {
        match FishRarity::from_string(s) {
            Some(tier) => Ok(tier),
            None => Err(()),
        }
    }
}

/// The rarity table is fair to its weights: the weights sum to 1000, and of
/// the draws `1..=1000`, each as likely as any other, exactly as many select
/// a tier as its weight says.
pub proof fn lemma_draws_per_tier(tier: FishRarity)
    ensures
        FishRarity::spec_total_weight() == 1000,
        forall|num: int| tier.spec_holds(num) ==> 1 <= num <= FishRarity::spec_total_weight(),
        Set::new(|num: int| tier.spec_holds(num)).finite(),
        Set::new(|num: int| tier.spec_holds(num)).len() == tier.spec_weight(),
{
    reveal_with_fuel(FishRarity::spec_weight_through, 8);
    let low = FishRarity::spec_weight_through(tier.spec_ident() - 1);
    let high = FishRarity::spec_weight_through(tier.spec_ident());
    vstd::set_lib::lemma_int_range(low + 1, high + 1);
    assert(Set::new(|num: int| tier.spec_holds(num)) =~= vstd::set_lib::set_int_range(
        low + 1,
        high + 1,
    ));
}

/// Every draw of `1..=1000` selects one tier and no other.
pub proof fn lemma_one_tier_per_draw(num: int)
    requires
        1 <= num <= FishRarity::spec_total_weight(),
    ensures
        exists|tier: FishRarity| tier.spec_holds(num),
        forall|a: FishRarity, b: FishRarity| a.spec_holds(num) && b.spec_holds(num) ==> a == b,
{
    reveal_with_fuel(FishRarity::spec_weight_through, 8);
    if num <= 400 {
        assert(FishRarity::Common.spec_holds(num));
    } else if num <= 700 {
        assert(FishRarity::Uncommon.spec_holds(num));
    } else if num <= 900 {
        assert(FishRarity::Rare.spec_holds(num));
    } else if num <= 989 {
        assert(FishRarity::Elusive.spec_holds(num));
    } else if num <= 999 {
        assert(FishRarity::Legendary.spec_holds(num));
    } else {
        assert(FishRarity::Mythical.spec_holds(num));
    }
}

/// No two tiers share a name, so a tier's name leads back to the tier.
pub proof fn lemma_names_differ(a: FishRarity, b: FishRarity)
    requires
        a.spec_name() == b.spec_name(),
    ensures
        a == b,
{
    reveal_strlit("Common");
    reveal_strlit("Uncommon");
    reveal_strlit("Rare");
    reveal_strlit("Elusive");
    reveal_strlit("Legendary");
    reveal_strlit("Mythical");
    assert("Common"@.len() == 6 && "Rare"@.len() == 4 && "Elusive"@.len() == 7);
    assert("Legendary"@.len() == 9);
    assert("Uncommon"@.len() == 8 && "Uncommon"@[0] == 'U');
    assert("Mythical"@.len() == 8 && "Mythical"@[0] == 'M');
}

/// `n / d` rounded to the nearest whole number, halves away from zero, for a
/// positive `d`.
pub open spec fn spec_round_div(n: int, d: int) -> int {
    if n >= 0 {
        (2 * n + d) / (2 * d)
    } else {
        -((2 * (-n) + d) / (2 * d))
    }
}

/// One species of the catalogue. Weights are whole pounds.
#[derive(Debug)]
pub struct FishType {
    pub name: String,
    /// The shallowest rod depth at which the species bites.
    pub depth: u32,
    /// The value of a specimen of average weight, before the rarity factor.
    pub value: u32,
    pub min_weight: u32,
    pub avg_weight: u32,
    pub max_weight: u32,
    /// The lowest sampled rarity at which the species may be caught.
    pub min_rarity: FishRarity,
}

impl Clone for FishType {
    fn clone(&self) -> (copy: Self)
        ensures
            copy == *self,
    {
        FishType {
            name: self.name.clone(),
            depth: self.depth,
            value: self.value,
            min_weight: self.min_weight,
            avg_weight: self.avg_weight,
            max_weight: self.max_weight,
            min_rarity: self.min_rarity,
        }
    }
}

impl FishType {
    /// The weights are ordered, the weight range is not empty, and every
    /// weight of the range can be written in tenths of a pound.
    pub open spec fn well_formed(&self) -> bool {
        &&& self.min_weight <= self.avg_weight <= self.max_weight
        &&& self.min_weight < self.max_weight
        &&& 10 * self.max_weight <= u32::MAX
    }

    /// Whether the species has these figures.
    pub open spec fn spec_is(
        &self,
        name: Seq<char>,
        depth: int,
        value: int,
        min_weight: int,
        avg_weight: int,
        max_weight: int,
        min_rarity: FishRarity,
    ) -> bool {
        &&& self.name@ == name
        &&& self.depth == depth
        &&& self.value == value
        &&& self.min_weight == min_weight
        &&& self.avg_weight == avg_weight
        &&& self.max_weight == max_weight
        &&& self.min_rarity == min_rarity
    }

    /// Whether a rod reaching `depth` that drew `rarity` may catch the species.
    pub open spec fn spec_catchable(&self, depth: int, rarity: FishRarity) -> bool {
        self.depth <= depth && self.min_rarity.spec_ident() <= rarity.spec_ident()
    }

    /// The value of a specimen of `weight` tenths of a pound, before the
    /// rarity factor: the base value plus `weight_factor` thousandths for
    /// each pound above the average weight (less for each pound below),
    /// rounded to the nearest whole number, and never under a quarter of the
    /// base value.
    pub open spec fn spec_value(&self, weight: int, weight_factor: int) -> int {
        let rounded = spec_round_div(
            self.value * 10000 + (weight - 10 * self.avg_weight) * weight_factor,
            10000,
        );
        if rounded < self.value / 4 {
            self.value as int / 4
        } else {
            rounded
        }
    }

    /// Whether the species is well formed.
    pub fn is_well_formed(&self) -> (ok: bool)
        ensures
            ok == self.well_formed(),
    {
        self.min_weight <= self.avg_weight && self.avg_weight <= self.max_weight
            && self.min_weight < self.max_weight && self.max_weight <= u32::MAX / 10
    }

    /// Whether a rod reaching `depth` that drew `rarity` may catch the species.
    pub fn catchable(&self, depth: u32, rarity: FishRarity) -> (ok: bool)
        ensures
            ok == self.spec_catchable(depth as int, rarity),
    {
        self.depth <= depth && self.min_rarity.ident() <= rarity.ident()
    }

    /// A weight for one specimen in tenths of a pound, drawn uniformly from
    /// the minimum weight up to, but not including, the maximum weight.
    pub fn random_weight(&self) -> (weight: u32)
        requires
            self.well_formed(),
        ensures
            10 * self.min_weight <= weight < 10 * self.max_weight,
    {
        let low = 10 * (self.min_weight as u64);
        let high = 10 * (self.max_weight as u64);
        random_range(low, high) as u32
    }

    /// The value of a specimen of `weight` tenths of a pound, before the
    /// rarity factor.
    pub fn get_value(&self, weight: u32, fish_data: &FishData) -> (value: u64)
        ensures
            value == self.spec_value(weight as int, fish_data.weight_factor as int),
    {
        let floor = (self.value / 4) as u64;
        let base = self.value as u128 * 10000;
        let average = 10 * (self.avg_weight as u128);
        let factor = fish_data.weight_factor as u128;
        let heavy = weight as u128 >= average;
        let spread = if heavy {
            weight as u128 - average
        } else {
            average - weight as u128
        };
        assert(spread * factor <= 0xa_0000_0000 * 0x1_0000_0000) by (nonlinear_arith)
            requires
                spread <= 0xa_0000_0000,
                factor <= 0x1_0000_0000,
        ;
        let change = spread * factor;
        proof {
            let delta = (weight - 10 * self.avg_weight) * (fish_data.weight_factor as int);
            assert(heavy ==> delta == change) by (nonlinear_arith)
                requires
                    heavy ==> spread == weight - 10 * self.avg_weight,
                    change == spread * factor,
                    factor == fish_data.weight_factor,
                    delta == (weight - 10 * self.avg_weight) * (fish_data.weight_factor as int),
            ;
            assert(!heavy ==> delta == -change) by (nonlinear_arith)
                requires
                    !heavy ==> spread == 10 * self.avg_weight - weight,
                    change == spread * factor,
                    factor == fish_data.weight_factor,
                    delta == (weight - 10 * self.avg_weight) * (fish_data.weight_factor as int),
            ;
        }
        if heavy || change <= base {
            let exact = if heavy {
                base + change
            } else {
                base - change
            };
            let rounded = ((2 * exact + 10000) / 20000) as u64;
            if rounded < floor {
                floor
            } else {
                rounded
            }
        } else {
            floor
        }
    }
}

/// The species catalogue.
#[derive(Debug)]
pub struct FishData {
    /// Value gained or lost per pound above or below the average weight, in
    /// thousandths.
    pub weight_factor: u32,
    pub fish: Vec<FishType>,
}

impl FishData {
    /// Every species of the catalogue is well formed.
    pub open spec fn well_formed(&self) -> bool {
        forall|i: int| 0 <= i < self.fish@.len() ==> (#[trigger] self.fish@[i]).well_formed()
    }

    /// Whether some species can be caught at `depth` whatever rarity is drawn.
    pub open spec fn spec_always_bites(&self, depth: int) -> bool {
        exists|i: int|
            0 <= i < self.fish@.len() && (#[trigger] self.fish@[i]).spec_catchable(
                depth,
                FishRarity::Common,
            )
    }

    /// The species that bite at `depth`, in catalogue order.
    pub open spec fn spec_fish_above_depth(&self, depth: int) -> Seq<FishType> {
        self.fish@.filter(|species: FishType| species.depth <= depth)
    }

    /// Whether some species is called `name`.
    pub open spec fn spec_knows(&self, name: Seq<char>) -> bool {
        exists|i: int| 0 <= i < self.fish@.len() && (#[trigger] self.fish@[i]).name@ == name
    }

    /// Whether the species at `i` is the first one called `name`.
    pub open spec fn spec_first_named(&self, name: Seq<char>, i: int) -> bool {
        &&& 0 <= i < self.fish@.len()
        &&& self.fish@[i].name@ == name
        &&& forall|j: int| 0 <= j < i ==> (#[trigger] self.fish@[j]).name@ != name
    }

    /// Whether every species of the catalogue is well formed.
    pub fn is_well_formed(&self) -> (ok: bool)
        ensures
            ok == self.well_formed(),
    {
        let mut i: usize = 0;
        while i < self.fish.len()
            invariant
                i <= self.fish@.len(),
                forall|j: int| 0 <= j < i ==> (#[trigger] self.fish@[j]).well_formed(),
            decreases self.fish@.len() - i,
        {
            if !self.fish[i].is_well_formed() {
                return false;
            }
            i += 1;
        }
        true
    }

    /// Whether some species can be caught at `depth` whatever rarity is drawn.
    pub fn always_bites(&self, depth: u32) -> (ok: bool)
        ensures
            ok == self.spec_always_bites(depth as int),
    {
        let mut i: usize = 0;
        while i < self.fish.len()
            invariant
                i <= self.fish@.len(),
                forall|j: int|
                    0 <= j < i ==> !(#[trigger] self.fish@[j]).spec_catchable(
                        depth as int,
                        FishRarity::Common,
                    ),
            decreases self.fish@.len() - i,
        {
            if self.fish[i].catchable(depth, FishRarity::Common) {
                return true;
            }
            i += 1;
        }
        false
    }

    /// The species that a rod reaching `depth` can meet: those whose own
    /// depth is at most `depth`, in catalogue order.
    pub fn get_fish_above_depth(&self, depth: u32) -> (pool: Vec<&FishType>)
        ensures
            pool@.map_values(|species: &FishType| *species) == self.spec_fish_above_depth(
                depth as int,
            ),
    {
        let ghost within = |species: FishType| species.depth <= depth as int;
        let ghost deref = |species: &FishType| *species;
        let mut pool: Vec<&FishType> = Vec::new();
        let mut i: usize = 0;
        while i < self.fish.len()
            invariant
                i <= self.fish@.len(),
                within == |species: FishType| species.depth <= depth as int,
                deref == |species: &FishType| *species,
                pool@.map_values(deref) == self.fish@.subrange(0, i as int).filter(within),
            decreases self.fish@.len() - i,
        {
            let species = &self.fish[i];
            proof {
                let before = self.fish@.subrange(0, i as int);
                let one = seq![*species];
                assert(self.fish@.subrange(0, i + 1) =~= before + one);
                Seq::filter_distributes_over_add(before, one, within);
                reveal_with_fuel(Seq::filter, 2);
            }
            if species.depth <= depth {
                pool.push(species);
            }
            i += 1;
        }
        assert(self.fish@.subrange(0, i as int) =~= self.fish@);
        pool
    }

    /// The first species called `name`, if there is one.
    pub fn fish_type_by_name(&self, name: &str) -> (found: Option<&FishType>)
        ensures
            match found {
                Some(species) => exists|i: int|
                    #[trigger] self.spec_first_named(name@, i) && *species == self.fish@[i],
                None => !self.spec_knows(name@),
            },
    {
        let mut i: usize = 0;
        while i < self.fish.len()
            invariant
                i <= self.fish@.len(),
                forall|j: int| 0 <= j < i ==> (#[trigger] self.fish@[j]).name@ != name@,
            decreases self.fish@.len() - i,
        {
            if str_eq(self.fish[i].name.as_str(), name) {
                assert(self.spec_first_named(name@, i as int));
                return Some(&self.fish[i]);
            }
            i += 1;
        }
        None
    }
}

/// What bites at one depth bites at every greater depth: a catalogue that
/// offers a catch at any rarity to a rod reaching `shallow` offers one to a
/// rod reaching `deep`.
pub proof fn lemma_bites_deeper(data: &FishData, shallow: int, deep: int)
    requires
        shallow <= deep,
        data.spec_always_bites(shallow),
    ensures
        data.spec_always_bites(deep),
{
}

/// Every item of a filtered sequence is an item of the sequence it was taken
/// from, and passes the filter.
proof fn lemma_filtered_is_member<A>(items: Seq<A>, pred: spec_fn(A) -> bool, k: int)
    requires
        0 <= k < items.filter(pred).len(),
    ensures
        items.contains(items.filter(pred)[k]),
        pred(items.filter(pred)[k]),
    decreases items.len(),
{
    reveal(Seq::filter);
    if items.len() > 0 {
        let rest = items.drop_last();
        let kept = rest.filter(pred);
        if k < kept.len() {
            lemma_filtered_is_member(rest, pred, k);
        }
    }
}

/// How often a cast draws a new candidate before it stops drawing and takes
/// the first species of the pool that the drawn rarity admits.
pub const MAX_REDRAWS: u32 = 4096;

/// A fish on the line. The weight is in tenths of a pound.
#[derive(Debug)]
pub struct Fish {
    pub fish_type: FishType,
    pub rarity: FishRarity,
    pub weight: u32,
}

impl Clone for Fish {
    fn clone(&self) -> (copy: Self)
        ensures
            copy == *self,
    {
        Fish { fish_type: self.fish_type.clone(), rarity: self.rarity, weight: self.weight }
    }
}

/// The first species of the pool that a rod reaching `depth` may catch at
/// `rarity`.
fn first_catchable<'a>(
    pool: &Vec<&'a FishType>,
    depth: u32,
    rarity: FishRarity,
) -> (found: &'a FishType)
    requires
        exists|k: int|
            0 <= k < pool@.len() && (#[trigger] pool@[k]).spec_catchable(depth as int, rarity),
    ensures
        pool@.contains(found),
        found.spec_catchable(depth as int, rarity),
{
    let len = pool.len();
    let mut k: usize = 0;
    while !pool[k].catchable(depth, rarity)
        invariant
            k < len == pool@.len(),
            exists|j: int|
                k <= j < pool@.len() && (#[trigger] pool@[j]).spec_catchable(depth as int, rarity),
        decreases len - k,
    {
        k += 1;
    }
    pool[k]
}

impl Fish {
    /// The weight lies in the weight range of the species.
    pub open spec fn spec_weight_in_range(&self) -> bool {
        10 * self.fish_type.min_weight <= self.weight < 10 * self.fish_type.max_weight
    }

    /// What the fish sells for: the value of the specimen times the factor
    /// of its rarity, cut down to a whole number that a `u32` holds.
    pub open spec fn spec_value(&self, weight_factor: int) -> int {
        let value = self.fish_type.spec_value(self.weight as int, weight_factor)
            * self.rarity.spec_value_multiplier() / 1000;
        if value > u32::MAX {
            u32::MAX as int
        } else {
            value
        }
    }

    /// The fish as named to the player: its rarity and its species.
    pub open spec fn spec_name(&self) -> Seq<char> {
        self.rarity.spec_name() + " "@ + self.fish_type.name@
    }

    /// Generates the fish that a cast with `caught_with` has on the line.
    ///
    /// A rarity is drawn first. Candidates are then drawn uniformly from the
    /// species that the rod's depth reaches until one admits the drawn
    /// rarity; after [`MAX_REDRAWS`] further draws the first species of the
    /// pool that admits it is taken instead. The weight is drawn from the
    /// weight range of the species.
    pub fn random_fish(fish_data: &FishData, caught_with: &Rod) -> (fish: Fish)
        requires
            fish_data.well_formed(),
            fish_data.spec_always_bites(caught_with.spec_depth()),
        ensures
            fish_data.fish@.contains(fish.fish_type),
            fish.fish_type.spec_catchable(caught_with.spec_depth(), fish.rarity),
            fish.spec_weight_in_range(),
    {
        let rarity = FishRarity::weighted_random();
        let depth = caught_with.get_depth();
        let pool = fish_data.get_fish_above_depth(depth);
        let ghost within = |species: FishType| species.depth <= depth as int;
        proof {
            assert forall|k: int| 0 <= k < pool@.len() implies fish_data.fish@.contains(
                *#[trigger] pool@[k],
            ) && pool@[k].depth <= depth by {
                lemma_filtered_is_member(fish_data.fish@, within, k);
            }
            let i = choose|i: int|
                0 <= i < fish_data.fish@.len() && (#[trigger] fish_data.fish@[i]).spec_catchable(
                    depth as int,
                    FishRarity::Common,
                );
            fish_data.fish@.lemma_filter_contains(within, i);
        }
        let mut pick: &FishType = pool[random_index(pool.len())];
        let mut redraws: u32 = 0;
        while !pick.catchable(depth, rarity) && redraws < MAX_REDRAWS
            invariant
                pool@.len() > 0,
                forall|k: int|
                    0 <= k < pool@.len() ==> fish_data.fish@.contains(*#[trigger] pool@[k])
                        && pool@[k].depth <= depth,
                fish_data.fish@.contains(*pick),
                pick.depth <= depth,
            decreases MAX_REDRAWS - redraws,
        {
            pick = pool[random_index(pool.len())];
            redraws += 1;
        }
        if !pick.catchable(depth, rarity) {
            pick = first_catchable(&pool, depth, rarity);
        }
        let weight = pick.random_weight();
        Fish { fish_type: pick.clone(), rarity, weight }
    }

    /// What the fish sells for, in whole currency units.
    pub fn get_value(&self, fish_data: &FishData) -> (value: u32)
        ensures
            value == self.spec_value(fish_data.weight_factor as int),
    {
        let plain = self.fish_type.get_value(self.weight, fish_data) as u128;
        let factor = self.rarity.value_multiplier() as u128;
        assert(plain * factor <= 0x1_0000_0000_0000_0000 * 10000) by (nonlinear_arith)
            requires
                plain <= 0x1_0000_0000_0000_0000,
                factor <= 10000,
        ;
        let value = plain * factor / 1000;
        if value > u32::MAX as u128 {
            u32::MAX
        } else {
            value as u32
        }
    }

    /// The fish as named to the player: its rarity and its species.
    pub fn to_string(&self) -> (name: String)
        ensures
            name@ == self.spec_name(),
    {
        let mut name = self.rarity.to_string();
        name.append(" ");
        name.append(self.fish_type.name.as_str());
        name
    }
}

} // verus!
