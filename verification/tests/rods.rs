use mini_fisher::data::rod_data;
use mini_fisher::data::rods::{BaseRod, Rod, RodData, RodModifier};
use mini_fisher::data::shop::RodRarity;

fn base(name: &str, rarity: RodRarity) -> BaseRod {
    BaseRod {
        name: name.to_string(),
        description: "plain".to_string(),
        catch_chance: 500,
        catch_rate: 16_500,
        depth: 30,
        weight_limit: 40,
        cost: 20_000,
        rarity,
    }
}

fn change(
    name: &str,
    catch_chance: i32,
    catch_rate: i32,
    depth: i32,
    weight_limit: i32,
) -> RodModifier {
    RodModifier { name: name.to_string(), catch_chance, catch_rate, depth, weight_limit }
}

#[test]
fn rod_catalogue_has_its_entries() {
    let data = rod_data();
    assert!(data.is_well_formed());
    assert_eq!(data.rods.len(), 13);
    assert_eq!(data.modifiers.len(), 3);
    let stick = &data.rods[0];
    assert_eq!(stick.name, "Stick with String");
    assert_eq!(stick.description, "A stick with a string tied to it. It gets the job done.");
    assert_eq!((stick.catch_chance, stick.catch_rate), (320, 24_000));
    assert_eq!((stick.depth, stick.weight_limit, stick.cost), (15, 20, 0));
    assert_eq!(stick.rarity, RodRarity::Unobtainable);
    let composite = data.get_base_by_name("Composite Casting Rod").unwrap();
    assert_eq!((composite.catch_chance, composite.catch_rate), (380, 16_500));
    assert_eq!((composite.depth, composite.weight_limit, composite.cost), (25, 45, 50_000));
    assert_eq!(composite.rarity, RodRarity::Uncommon);
    let last = &data.rods[12];
    assert_eq!(last.name, "Graphite Fly Rod");
    assert_eq!((last.catch_chance, last.catch_rate), (600, 3_000));
    assert_eq!((last.depth, last.weight_limit, last.cost), (80, 450, 800_000));
    assert_eq!(last.rarity, RodRarity::Epic);
}

#[test]
fn rod_catalogue_has_its_modifiers() {
    let data = rod_data();
    let old = &data.modifiers[0];
    assert_eq!(old.name, "Old");
    assert_eq!((old.catch_chance, old.catch_rate), (-20, 1_500));
    assert_eq!((old.depth, old.weight_limit), (-5, -5));
    let better = &data.modifiers[1];
    assert_eq!(better.name, "Better");
    assert_eq!((better.catch_chance, better.catch_rate), (20, -1_500));
    assert_eq!((better.depth, better.weight_limit), (0, 0));
    let upgraded = &data.modifiers[2];
    assert_eq!(upgraded.name, "Upgraded");
    assert_eq!(
        (upgraded.catch_chance, upgraded.catch_rate, upgraded.depth, upgraded.weight_limit),
        (200, -2_500, 20, 20)
    );
}

#[test]
fn rod_catalogue_counts_by_rarity() {
    let data = rod_data();
    let count = |rarity: RodRarity| data.rods.iter().filter(|r| r.rarity == rarity).count();
    assert_eq!(count(RodRarity::Common), 2);
    assert_eq!(count(RodRarity::Uncommon), 4);
    assert_eq!(count(RodRarity::Rare), 4);
    assert_eq!(count(RodRarity::Epic), 2);
    assert_eq!(count(RodRarity::Unobtainable), 1);
}

#[test]
fn empty_rod_catalogue_is_ill_formed() {
    assert!(!RodData { rods: vec![], modifiers: vec![] }.is_well_formed());
}

#[test]
fn lookups_by_name() {
    let data = rod_data();
    assert_eq!(data.get_base_by_name("Bamboo Fly Rod").unwrap().depth, 50);
    assert!(data.get_base_by_name("Golden Rod").is_none());
    assert_eq!(data.get_modifier_by_name("Upgraded").unwrap().depth, 20);
    assert!(data.get_modifier_by_name("Cursed").is_none());
}

#[test]
fn lookups_take_the_first_of_equal_names() {
    let mut first = base("Twin", RodRarity::Common);
    first.depth = 1;
    let mut second = base("Twin", RodRarity::Rare);
    second.depth = 2;
    let data = RodData {
        rods: vec![first, second],
        modifiers: vec![change("Same", 1, 0, 0, 0), change("Same", 2, 0, 0, 0)],
    };
    assert_eq!(data.get_base_by_name("Twin").unwrap().depth, 1);
    assert_eq!(data.get_modifier_by_name("Same").unwrap().catch_chance, 1);
}

#[test]
fn unknown_names_fall_back() {
    let data = rod_data();
    assert_eq!(data.base_or_default("Golden Rod").name, "Stick with String");
    assert_eq!(data.base_or_default("Bamboo Fly Rod").name, "Bamboo Fly Rod");
    assert!(data.modifier_or_none(&Some("Cursed".to_string())).is_none());
    assert!(data.modifier_or_none(&None).is_none());
    assert_eq!(data.modifier_or_none(&Some("Old".to_string())).unwrap().name, "Old");
}

#[test]
fn figures_without_a_modifier_are_the_archetype_s() {
    let rod = Rod { base: base("Plain", RodRarity::Common), modifier: None };
    assert_eq!(rod.get_catch_rate(), 16);
    assert_eq!(rod.get_catch_chance(), 500);
    assert_eq!(rod.get_depth(), 30);
    assert_eq!(rod.get_weight_limit(), 40);
    assert_eq!(rod.to_string(), "Plain");
}

#[test]
fn modifier_changes_are_added() {
    let rod = Rod {
        base: base("Plain", RodRarity::Common),
        modifier: Some(change("Old", -20, 1_500, -5, -5)),
    };
    assert_eq!(rod.get_catch_rate(), 18);
    assert_eq!(rod.get_catch_chance(), 480);
    assert_eq!(rod.get_depth(), 25);
    assert_eq!(rod.get_weight_limit(), 35);
    assert_eq!(rod.to_string(), "Old Plain");
    let rod = Rod {
        base: base("Plain", RodRarity::Common),
        modifier: Some(change("Upgraded", 200, -2_500, 20, 20)),
    };
    assert_eq!(rod.get_catch_rate(), 14);
    assert_eq!(rod.get_catch_chance(), 700);
    assert_eq!(rod.get_depth(), 50);
    assert_eq!(rod.get_weight_limit(), 60);
}

#[test]
fn figures_never_go_below_zero() {
    let rod = Rod {
        base: base("Plain", RodRarity::Common),
        modifier: Some(change("Ruined", -501, -16_501, -31, -41)),
    };
    assert_eq!(rod.get_catch_rate(), 0);
    assert_eq!(rod.get_catch_chance(), 0);
    assert_eq!(rod.get_depth(), 0);
    assert_eq!(rod.get_weight_limit(), 0);
    let rod = Rod {
        base: base("Plain", RodRarity::Common),
        modifier: Some(change("Worst", i32::MIN, i32::MIN, i32::MIN, i32::MIN)),
    };
    assert_eq!(rod.get_depth(), 0);
    assert_eq!(rod.get_weight_limit(), 0);
}

#[test]
fn figures_never_go_above_a_u32() {
    let mut top = base("Top", RodRarity::Epic);
    top.catch_chance = u32::MAX;
    top.catch_rate = u32::MAX;
    top.depth = u32::MAX;
    top.weight_limit = u32::MAX - 3;
    let rod = Rod { base: top, modifier: Some(change("More", 1, 1, i32::MAX, 2)) };
    assert_eq!(rod.get_catch_chance(), u32::MAX);
    assert_eq!(rod.get_catch_rate(), u32::MAX / 1000);
    assert_eq!(rod.get_depth(), u32::MAX);
    assert_eq!(rod.get_weight_limit(), u32::MAX - 1);
}

#[test]
fn catch_time_is_rate_times_multiplier() {
    let rod = Rod { base: base("Plain", RodRarity::Common), modifier: None };
    assert_eq!(rod.catch_time(800), 12_800);
    assert_eq!(rod.catch_time(1_000), 16_000);
    assert_eq!(rod.catch_time(1_199), 19_184);
    assert_eq!(rod.catch_time(0), 0);
}

#[test]
fn random_catch_time_is_within_a_fifth_of_the_rate() {
    let rod = Rod { base: base("Plain", RodRarity::Common), modifier: None };
    let mut seen = std::collections::BTreeSet::new();
    for _ in 0..2000 {
        let time = rod.random_catch_time();
        assert!((12_800..19_200).contains(&time));
        assert_eq!(time % 16, 0);
        seen.insert(time);
    }
    assert!(seen.len() > 100);
}

#[test]
fn modifier_for_draws() {
    let data = rod_data();
    assert_eq!(data.modifier_for(0, 0).unwrap().name, "Old");
    assert_eq!(data.modifier_for(9, 2).unwrap().name, "Upgraded");
    assert!(data.modifier_for(10, 0).is_none());
    assert!(data.modifier_for(99, 1).is_none());
    assert!(data.modifier_for(0, 3).is_none());
}

#[test]
fn generate_modifier_attaches_one_time_in_ten() {
    let data = rod_data();
    let draws = 20_000;
    let mut attached = 0;
    let mut names = std::collections::BTreeSet::new();
    for _ in 0..draws {
        if let Some(modifier) = data.generate_modifier() {
            attached += 1;
            assert!(data.get_modifier_by_name(&modifier.name).is_some());
            names.insert(modifier.name);
        }
    }
    let share = f64::from(attached) / f64::from(draws);
    assert!((share - 0.1).abs() < 0.02, "{}", share);
    assert_eq!(names.len(), 3);
}

#[test]
fn generate_modifier_without_modifiers_gives_none() {
    let data = RodData { rods: vec![base("Plain", RodRarity::Common)], modifiers: vec![] };
    for _ in 0..200 {
        assert!(data.generate_modifier().is_none());
    }
}

#[test]
fn candidates_are_the_archetypes_of_the_rarity() {
    let data = rod_data();
    assert_eq!(data.candidates(RodRarity::Common), vec![1, 4]);
    assert_eq!(data.candidates(RodRarity::Uncommon), vec![2, 3, 5, 6]);
    assert_eq!(data.candidates(RodRarity::Rare), vec![7, 8, 10, 11]);
    assert_eq!(data.candidates(RodRarity::Epic), vec![9, 12]);
    assert_eq!(data.candidates(RodRarity::Unobtainable), vec![0]);
}

#[test]
fn candidates_are_all_where_the_rarity_is_missing() {
    let data = RodData {
        rods: vec![
            base("A", RodRarity::Common),
            base("B", RodRarity::Rare),
            base("C", RodRarity::Common),
        ],
        modifiers: vec![],
    };
    assert_eq!(data.candidates(RodRarity::Epic), vec![0, 1, 2]);
    assert_eq!(data.candidates(RodRarity::Rare), vec![1]);
    let empty = RodData { rods: vec![], modifiers: vec![] };
    assert!(empty.candidates(RodRarity::Common).is_empty());
}

#[test]
fn generate_rod_base_matches_the_rarity() {
    let data = rod_data();
    for rarity in [
        RodRarity::Common,
        RodRarity::Uncommon,
        RodRarity::Rare,
        RodRarity::Epic,
        RodRarity::Unobtainable,
    ] {
        let mut names = std::collections::BTreeSet::new();
        for _ in 0..400 {
            let rod = data.generate_rod_base(rarity);
            assert_eq!(rod.rarity, rarity);
            names.insert(rod.name);
        }
        assert_eq!(names.len(), data.candidates(rarity).len());
    }
}

#[test]
fn generate_rod_base_falls_back_to_any_archetype() {
    let data = RodData {
        rods: vec![base("A", RodRarity::Common), base("B", RodRarity::Rare)],
        modifiers: vec![],
    };
    let mut names = std::collections::BTreeSet::new();
    for _ in 0..400 {
        names.insert(data.generate_rod_base(RodRarity::Epic).name);
    }
    assert_eq!(names.len(), 2);
}

#[test]
fn generate_rod_joins_archetype_and_modifier() {
    let data = rod_data();
    let mut modified = 0;
    for _ in 0..2000 {
        let rod = data.generate_rod(RodRarity::Rare);
        assert_eq!(rod.base.rarity, RodRarity::Rare);
        if let Some(modifier) = &rod.modifier {
            modified += 1;
            assert!(data.get_modifier_by_name(&modifier.name).is_some());
        }
    }
    assert!(modified > 100 && modified < 320, "{}", modified);
}

#[test]
fn effective_weight_limit_of_a_worn_rod() {
    let mut worn = base("Fiberglass", RodRarity::Common);
    worn.weight_limit = 40;
    let rod = Rod { base: worn, modifier: Some(change("Old", -20, 1_500, -5, -5)) };
    assert_eq!(rod.get_weight_limit(), 35);
}
