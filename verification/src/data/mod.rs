//! The catalogues and the records built on them.

use vstd::prelude::*;
use vstd::string::StringExecFns;
use crate::data::fish::{FishData, FishRarity, FishType};
use crate::data::rods::{BaseRod, RodData, RodModifier};
use crate::data::shop::RodRarity;

pub mod fish;
pub mod rods;
pub mod shop;
pub mod userfile;

verus! {

fn species(
    name: &str,
    depth: u32,
    value: u32,
    min_weight: u32,
    avg_weight: u32,
    max_weight: u32,
    min_rarity: FishRarity,
) -> (entry: FishType)
    ensures
        entry.spec_is(
            name@,
            depth as int,
            value as int,
            min_weight as int,
            avg_weight as int,
            max_weight as int,
            min_rarity,
        ),
{
    FishType {
        name: String::from_str(name),
        depth,
        value,
        min_weight,
        avg_weight,
        max_weight,
        min_rarity,
    }
}

/// The species table: what [`fish_data`] holds, entry by entry. Each line
/// gives a name, the depth, the base value, the least, the average and the
/// greatest weight in pounds, and the rarity gate.
pub open spec fn spec_fish_table(fish: Seq<FishType>) -> bool {
    &&& fish.len() == 37
    &&& fish[0].spec_is("Old Boot"@, 1, 1, 1, 1, 2, FishRarity::Common)
    &&& fish[1].spec_is("Tin Can"@, 1, 1, 1, 1, 2, FishRarity::Common)
    &&& fish[2].spec_is("Seaweed"@, 1, 2, 1, 1, 2, FishRarity::Common)
    &&& fish[3].spec_is("Plastic Bag"@, 1, 1, 1, 1, 2, FishRarity::Common)
    &&& fish[4].spec_is("Plastic Bottle"@, 1, 1, 1, 1, 2, FishRarity::Common)
    &&& fish[5].spec_is("Tire"@, 1, 5, 1, 1, 2, FishRarity::Common)
    &&& fish[6].spec_is("Trout"@, 10, 8, 15, 20, 25, FishRarity::Common)
    &&& fish[7].spec_is("Rainbow Trout"@, 10, 30, 1, 2, 5, FishRarity::Elusive)
    &&& fish[8].spec_is("Bass"@, 25, 6, 5, 12, 20, FishRarity::Common)
    &&& fish[9].spec_is("Salmon"@, 20, 12, 5, 10, 30, FishRarity::Common)
    &&& fish[10].spec_is("Tuna"@, 30, 75, 40, 300, 500, FishRarity::Rare)
    &&& fish[11].spec_is("Marlin"@, 45, 30, 200, 210, 400, FishRarity::Uncommon)
    &&& fish[12].spec_is("Perch"@, 8, 5, 1, 2, 4, FishRarity::Common)
    &&& fish[13].spec_is("Catfish"@, 25, 30, 1, 2, 4, FishRarity::Uncommon)
    &&& fish[14].spec_is("Swordfish"@, 40, 80, 50, 180, 500, FishRarity::Rare)
    &&& fish[15].spec_is("Pike"@, 18, 8, 20, 28, 40, FishRarity::Uncommon)
    &&& fish[16].spec_is("Cod"@, 20, 8, 6, 9, 15, FishRarity::Common)
    &&& fish[17].spec_is("Herring"@, 10, 5, 1, 2, 3, FishRarity::Common)
    &&& fish[18].spec_is("Mackerel"@, 15, 4, 1, 2, 4, FishRarity::Common)
    &&& fish[19].spec_is("Sardine"@, 5, 2, 1, 2, 3, FishRarity::Common)
    &&& fish[20].spec_is("Eel"@, 20, 12, 10, 15, 30, FishRarity::Uncommon)
    &&& fish[21].spec_is("Shark"@, 60, 50, 200, 300, 500, FishRarity::Rare)
    &&& fish[22].spec_is("Tilapia"@, 10, 5, 1, 2, 3, FishRarity::Common)
    &&& fish[23].spec_is("Carp"@, 10, 5, 1, 2, 3, FishRarity::Common)
    &&& fish[24].spec_is("Guppy"@, 5, 2, 1, 2, 3, FishRarity::Common)
    &&& fish[25].spec_is("Jellyfish"@, 5, 12, 1, 2, 3, FishRarity::Common)
    &&& fish[26].spec_is("Dogfish"@, 15, 15, 4, 8, 21, FishRarity::Rare)
    &&& fish[27].spec_is("Stingray"@, 5, 50, 31, 40, 75, FishRarity::Elusive)
    &&& fish[28].spec_is("Barramundi"@, 8, 10, 1, 13, 110, FishRarity::Uncommon)
    &&& fish[29].spec_is("Anglerfish"@, 100, 75, 60, 70, 110, FishRarity::Uncommon)
    &&& fish[30].spec_is("Lanternfish"@, 110, 50, 1, 1, 2, FishRarity::Common)
    &&& fish[31].spec_is("Fangtooth"@, 110, 150, 60, 70, 110, FishRarity::Elusive)
    &&& fish[32].spec_is("Viperfish"@, 110, 75, 1, 1, 2, FishRarity::Uncommon)
    &&& fish[33].spec_is("Daggertooth"@, 110, 75, 1, 4, 6, FishRarity::Uncommon)
    &&& fish[34].spec_is("Barracudina"@, 110, 50, 0, 1, 2, FishRarity::Uncommon)
    &&& fish[35].spec_is("Antarctic Toothfish"@, 110, 150, 50, 97, 330, FishRarity::Rare)
    &&& fish[36].spec_is("Loch Ness Monster"@, 150, 1000, 800, 1000, 1200, FishRarity::Mythical)
}

/// The species of the game, from debris near the surface to the deep sea.
///
/// The catalogue is well formed, and a rod that reaches a depth of 1 finds
/// a species to catch at any drawn rarity.
pub fn fish_data() -> (data: FishData)
    ensures
        data.weight_factor == 800,
        spec_fish_table(data.fish@),
        data.well_formed(),
        data.spec_always_bites(1),
{
    let mut fish: Vec<FishType> = Vec::new();
    fish.push(species("Old Boot", 1, 1, 1, 1, 2, FishRarity::Common));
    fish.push(species("Tin Can", 1, 1, 1, 1, 2, FishRarity::Common));
    fish.push(species("Seaweed", 1, 2, 1, 1, 2, FishRarity::Common));
    fish.push(species("Plastic Bag", 1, 1, 1, 1, 2, FishRarity::Common));
    fish.push(species("Plastic Bottle", 1, 1, 1, 1, 2, FishRarity::Common));
    fish.push(species("Tire", 1, 5, 1, 1, 2, FishRarity::Common));
    fish.push(species("Trout", 10, 8, 15, 20, 25, FishRarity::Common));
    fish.push(species("Rainbow Trout", 10, 30, 1, 2, 5, FishRarity::Elusive));
    fish.push(species("Bass", 25, 6, 5, 12, 20, FishRarity::Common));
    fish.push(species("Salmon", 20, 12, 5, 10, 30, FishRarity::Common));
    fish.push(species("Tuna", 30, 75, 40, 300, 500, FishRarity::Rare));
    fish.push(species("Marlin", 45, 30, 200, 210, 400, FishRarity::Uncommon));
    fish.push(species("Perch", 8, 5, 1, 2, 4, FishRarity::Common));
    fish.push(species("Catfish", 25, 30, 1, 2, 4, FishRarity::Uncommon));
    fish.push(species("Swordfish", 40, 80, 50, 180, 500, FishRarity::Rare));
    fish.push(species("Pike", 18, 8, 20, 28, 40, FishRarity::Uncommon));
    fish.push(species("Cod", 20, 8, 6, 9, 15, FishRarity::Common));
    fish.push(species("Herring", 10, 5, 1, 2, 3, FishRarity::Common));
    fish.push(species("Mackerel", 15, 4, 1, 2, 4, FishRarity::Common));
    fish.push(species("Sardine", 5, 2, 1, 2, 3, FishRarity::Common));
    fish.push(species("Eel", 20, 12, 10, 15, 30, FishRarity::Uncommon));
    fish.push(species("Shark", 60, 50, 200, 300, 500, FishRarity::Rare));
    fish.push(species("Tilapia", 10, 5, 1, 2, 3, FishRarity::Common));
    fish.push(species("Carp", 10, 5, 1, 2, 3, FishRarity::Common));
    fish.push(species("Guppy", 5, 2, 1, 2, 3, FishRarity::Common));
    fish.push(species("Jellyfish", 5, 12, 1, 2, 3, FishRarity::Common));
    fish.push(species("Dogfish", 15, 15, 4, 8, 21, FishRarity::Rare));
    fish.push(species("Stingray", 5, 50, 31, 40, 75, FishRarity::Elusive));
    fish.push(species("Barramundi", 8, 10, 1, 13, 110, FishRarity::Uncommon));
    fish.push(species("Anglerfish", 100, 75, 60, 70, 110, FishRarity::Uncommon));
    fish.push(species("Lanternfish", 110, 50, 1, 1, 2, FishRarity::Common));
    fish.push(species("Fangtooth", 110, 150, 60, 70, 110, FishRarity::Elusive));
    fish.push(species("Viperfish", 110, 75, 1, 1, 2, FishRarity::Uncommon));
    fish.push(species("Daggertooth", 110, 75, 1, 4, 6, FishRarity::Uncommon));
    fish.push(species("Barracudina", 110, 50, 0, 1, 2, FishRarity::Uncommon));
    fish.push(species("Antarctic Toothfish", 110, 150, 50, 97, 330, FishRarity::Rare));
    fish.push(species("Loch Ness Monster", 150, 1000, 800, 1000, 1200, FishRarity::Mythical));
    let data = FishData { weight_factor: 800, fish };
    data
}

fn archetype(
    name: &str,
    description: &str,
    catch_chance: u32,
    catch_rate: u32,
    depth: u32,
    weight_limit: u32,
    cost: u32,
    rarity: RodRarity,
) -> (entry: BaseRod)
    ensures
        entry.spec_is(
            name@,
            description@,
            catch_chance as int,
            catch_rate as int,
            depth as int,
            weight_limit as int,
            cost as int,
            rarity,
        ),
{
    BaseRod {
        name: String::from_str(name),
        description: String::from_str(description),
        catch_chance,
        catch_rate,
        depth,
        weight_limit,
        cost,
        rarity,
    }
}

fn modifier(
    name: &str,
    catch_chance: i32,
    catch_rate: i32,
    depth: i32,
    weight_limit: i32,
) -> (entry: RodModifier)
    ensures
        entry.spec_is(
            name@,
            catch_chance as int,
            catch_rate as int,
            depth as int,
            weight_limit as int,
        ),
{
    RodModifier { name: String::from_str(name), catch_chance, catch_rate, depth, weight_limit }
}

/// The archetype table: what [`rod_data`] holds, entry by entry. Each entry
/// gives a name, a description, the catch chance in thousandths, the catch
/// rate in milliseconds, the depth, the weight limit in pounds, the cost in
/// hundredths and the rarity.
pub open spec fn spec_rod_table(rods: Seq<BaseRod>) -> bool {
    &&& rods.len() == 13
    &&& rods[0].spec_is(
        "Stick with String"@,
        "A stick with a string tied to it. It gets the job done."@,
        320,
        24000,
        15,
        20,
        0,
        RodRarity::Unobtainable,
    )
    &&& rods[1].spec_is(
        "Fiberglass Casting Rod"@,
        "Faster to reel but lower chance of catching fish."@,
        350,
        20000,
        20,
        40,
        20000,
        RodRarity::Common,
    )
    &&& rods[2].spec_is(
        "Composite Casting Rod"@,
        "Faster to reel but lower chance of catching fish."@,
        380,
        16500,
        25,
        45,
        50000,
        RodRarity::Uncommon,
    )
    &&& rods[3].spec_is(
        "Bamboo Casting Rod"@,
        "Faster to reel but lower chance of catching fish."@,
        420,
        15000,
        30,
        50,
        100000,
        RodRarity::Uncommon,
    )
    &&& rods[4].spec_is(
        "Fiberglass Spinning Rod"@,
        "Slow to reel but higher chance of catching fish."@,
        400,
        18000,
        20,
        40,
        25000,
        RodRarity::Common,
    )
    &&& rods[5].spec_is(
        "Composite Spinning Rod"@,
        "Slow to reel but higher chance of catching fish."@,
        450,
        17500,
        25,
        45,
        50000,
        RodRarity::Uncommon,
    )
    &&& rods[6].spec_is(
        "Bamboo Spinning Rod"@,
        "Slow to reel but higher chance of catching fish."@,
        500,
        16000,
        30,
        50,
        100000,
        RodRarity::Uncommon,
    )
    &&& rods[7].spec_is(
        "Composite Overhead Rod"@,
        "Slower to reel but can catch the deepest fish with the best catch rates."@,
        650,
        15000,
        80,
        300,
        400000,
        RodRarity::Rare,
    )
    &&& rods[8].spec_is(
        "Graphite Overhead Rod"@,
        "Slower to reel but can catch the deepest fish with the best catch rates."@,
        700,
        12000,
        100,
        600,
        500000,
        RodRarity::Rare,
    )
    &&& rods[9].spec_is(
        "Titanium Overhead Rod"@,
        "Slower to reel but can catch the deepest fish with the best catch rates."@,
        750,
        10000,
        150,
        1000,
        800000,
        RodRarity::Epic,
    )
    &&& rods[10].spec_is(
        "Composite Fly Rod"@,
        "Incredibly quick catch rates but can't reach deeper waters."@,
        500,
        8000,
        45,
        250,
        400000,
        RodRarity::Rare,
    )
    &&& rods[11].spec_is(
        "Bamboo Fly Rod"@,
        "Incredibly quick catch rates but can't reach deeper waters."@,
        550,
        5000,
        50,
        320,
        500000,
        RodRarity::Rare,
    )
    &&& rods[12].spec_is(
        "Graphite Fly Rod"@,
        "Incredibly quick catch rates but can't reach deeper waters."@,
        600,
        3000,
        80,
        450,
        800000,
        RodRarity::Epic,
    )
}

/// The modifier table: what [`rod_data`] holds, entry by entry. Each line
/// gives a name and the changes to catch chance, catch rate, depth and
/// weight limit.
pub open spec fn spec_modifier_table(modifiers: Seq<RodModifier>) -> bool {
    &&& modifiers.len() == 3
    &&& modifiers[0].spec_is("Old"@, -20, 1500, -5, -5)
    &&& modifiers[1].spec_is("Better"@, 20, -1500, 0, 0)
    &&& modifiers[2].spec_is("Upgraded"@, 200, -2500, 20, 20)
}

/// The rods of the game and the modifiers that a rod may carry.
///
/// The first archetype is the rod every player starts with; it cannot be
/// drawn and costs nothing. Each rarity that the shop offers has at least
/// one archetype, and there is a modifier to attach.
pub fn rod_data() -> (data: RodData)
    ensures
        spec_rod_table(data.rods@),
        spec_modifier_table(data.modifiers@),
        data.well_formed(),
        data.spec_has_rarity(RodRarity::Common),
        data.spec_has_rarity(RodRarity::Uncommon),
        data.spec_has_rarity(RodRarity::Rare),
        data.spec_has_rarity(RodRarity::Epic),
{
    let mut rods: Vec<BaseRod> = Vec::new();
    rods.push(
        archetype(
            "Stick with String",
            "A stick with a string tied to it. It gets the job done.",
            320,
            24000,
            15,
            20,
            0,
            RodRarity::Unobtainable,
        ),
    );
    rods.push(
        archetype(
            "Fiberglass Casting Rod",
            "Faster to reel but lower chance of catching fish.",
            350,
            20000,
            20,
            40,
            20000,
            RodRarity::Common,
        ),
    );
    rods.push(
        archetype(
            "Composite Casting Rod",
            "Faster to reel but lower chance of catching fish.",
            380,
            16500,
            25,
            45,
            50000,
            RodRarity::Uncommon,
        ),
    );
    rods.push(
        archetype(
            "Bamboo Casting Rod",
            "Faster to reel but lower chance of catching fish.",
            420,
            15000,
            30,
            50,
            100000,
            RodRarity::Uncommon,
        ),
    );
    rods.push(
        archetype(
            "Fiberglass Spinning Rod",
            "Slow to reel but higher chance of catching fish.",
            400,
            18000,
            20,
            40,
            25000,
            RodRarity::Common,
        ),
    );
    rods.push(
        archetype(
            "Composite Spinning Rod",
            "Slow to reel but higher chance of catching fish.",
            450,
            17500,
            25,
            45,
            50000,
            RodRarity::Uncommon,
        ),
    );
    rods.push(
        archetype(
            "Bamboo Spinning Rod",
            "Slow to reel but higher chance of catching fish.",
            500,
            16000,
            30,
            50,
            100000,
            RodRarity::Uncommon,
        ),
    );
    rods.push(
        archetype(
            "Composite Overhead Rod",
            "Slower to reel but can catch the deepest fish with the best catch rates.",
            650,
            15000,
            80,
            300,
            400000,
            RodRarity::Rare,
        ),
    );
    rods.push(
        archetype(
            "Graphite Overhead Rod",
            "Slower to reel but can catch the deepest fish with the best catch rates.",
            700,
            12000,
            100,
            600,
            500000,
            RodRarity::Rare,
        ),
    );
    rods.push(
        archetype(
            "Titanium Overhead Rod",
            "Slower to reel but can catch the deepest fish with the best catch rates.",
            750,
            10000,
            150,
            1000,
            800000,
            RodRarity::Epic,
        ),
    );
    rods.push(
        archetype(
            "Composite Fly Rod",
            "Incredibly quick catch rates but can't reach deeper waters.",
            500,
            8000,
            45,
            250,
            400000,
            RodRarity::Rare,
        ),
    );
    rods.push(
        archetype(
            "Bamboo Fly Rod",
            "Incredibly quick catch rates but can't reach deeper waters.",
            550,
            5000,
            50,
            320,
            500000,
            RodRarity::Rare,
        ),
    );
    rods.push(
        archetype(
            "Graphite Fly Rod",
            "Incredibly quick catch rates but can't reach deeper waters.",
            600,
            3000,
            80,
            450,
            800000,
            RodRarity::Epic,
        ),
    );
    let mut modifiers: Vec<RodModifier> = Vec::new();
    modifiers.push(modifier("Old", -20, 1500, -5, -5));
    modifiers.push(modifier("Better", 20, -1500, 0, 0));
    modifiers.push(modifier("Upgraded", 200, -2500, 20, 20));
    let data = RodData { rods, modifiers };
    data
}

} // verus!
