use mini_fisher::data::rod_data;
use mini_fisher::data::userfile::{get_userfile_path, UserValues};

#[test]
fn userfile_path_is_fixed() {
    assert_eq!(get_userfile_path(), "./data/udat.json");
}

#[test]
fn new_player_starts_with_the_stick() {
    let fresh = UserValues::default();
    assert_eq!(fresh.fish_caught, 0);
    assert_eq!(fresh.money, 0);
    assert_eq!(fresh.rod_name, "Stick with String");
    assert_eq!(fresh.rod_modifier, None);
    assert!(fresh.has_seen.is_empty());
}

#[test]
fn clone_keeps_every_field() {
    let user = UserValues {
        fish_caught: 3,
        money: 250,
        rod_name: "Bamboo Fly Rod".to_string(),
        rod_modifier: Some("Old".to_string()),
        has_seen: vec!["Trout".to_string(), "Tire".to_string()],
    };
    let copy = user.clone();
    assert_eq!(copy.fish_caught, 3);
    assert_eq!(copy.money, 250);
    assert_eq!(copy.rod_name, "Bamboo Fly Rod");
    assert_eq!(copy.rod_modifier, Some("Old".to_string()));
    assert_eq!(copy.has_seen, vec!["Trout".to_string(), "Tire".to_string()]);
}

#[test]
fn get_rod_reads_the_names() {
    let data = rod_data();
    let mut user = UserValues::default();
    let rod = user.get_rod(&data);
    assert_eq!(rod.base.name, "Stick with String");
    assert!(rod.modifier.is_none());
    assert!(user.has_known_rod(&data));
    user.rod_name = "Graphite Overhead Rod".to_string();
    user.rod_modifier = Some("Upgraded".to_string());
    let rod = user.get_rod(&data);
    assert_eq!(rod.base.name, "Graphite Overhead Rod");
    assert_eq!(rod.modifier.as_ref().unwrap().name, "Upgraded");
    assert_eq!(rod.get_depth(), 120);
    assert_eq!(rod.get_weight_limit(), 620);
    assert!(user.has_known_rod(&data));
}

#[test]
fn get_rod_falls_back_on_unknown_names() {
    let data = rod_data();
    let mut user = UserValues::default();
    user.rod_name = "Rod of Legends".to_string();
    user.rod_modifier = Some("Old".to_string());
    let rod = user.get_rod(&data);
    assert_eq!(rod.base.name, "Stick with String");
    assert_eq!(rod.modifier.as_ref().unwrap().name, "Old");
    assert!(!user.has_known_rod(&data));
    user.rod_name = "Bamboo Fly Rod".to_string();
    user.rod_modifier = Some("Cursed".to_string());
    let rod = user.get_rod(&data);
    assert_eq!(rod.base.name, "Bamboo Fly Rod");
    assert!(rod.modifier.is_none());
    assert!(!user.has_known_rod(&data));
}

#[test]
fn record_catch_books_a_new_species() {
    let mut user = UserValues::default();
    user.record_catch(24, "Trout");
    assert_eq!(user.fish_caught, 1);
    assert_eq!(user.money, 24);
    assert_eq!(user.has_seen, vec!["Trout".to_string()]);
    assert!(user.has_seen_species("Trout"));
    assert!(!user.has_seen_species("Tire"));
    user.record_catch(5, "Tire");
    assert_eq!(user.fish_caught, 2);
    assert_eq!(user.money, 29);
    assert_eq!(user.has_seen, vec!["Trout".to_string(), "Tire".to_string()]);
}

#[test]
fn record_catch_lists_a_species_once() {
    let mut user = UserValues::default();
    user.record_catch(24, "Trout");
    user.record_catch(0, "Trout");
    user.record_catch(7, "Trout");
    assert_eq!(user.fish_caught, 3);
    assert_eq!(user.money, 31);
    assert_eq!(user.has_seen, vec!["Trout".to_string()]);
    assert_eq!(user.rod_name, "Stick with String");
    assert_eq!(user.rod_modifier, None);
}

#[test]
fn record_catch_stops_at_the_largest_u32() {
    let mut user = UserValues::default();
    user.money = u32::MAX - 5;
    user.fish_caught = u32::MAX;
    user.record_catch(6, "Trout");
    assert_eq!(user.money, u32::MAX);
    assert_eq!(user.fish_caught, u32::MAX);
    user.money = u32::MAX - 5;
    user.record_catch(5, "Trout");
    assert_eq!(user.money, u32::MAX);
}

fn to_json(user: &UserValues) -> String {
    let mut record = serde_json::Map::new();
    record.insert("fish_caught".to_string(), serde_json::Value::from(user.fish_caught));
    record.insert("money".to_string(), serde_json::Value::from(user.money));
    record.insert("rod_name".to_string(), serde_json::Value::from(user.rod_name.clone()));
    record.insert("rod_modifier".to_string(), serde_json::Value::from(user.rod_modifier.clone()));
    record.insert("has_seen".to_string(), serde_json::Value::from(user.has_seen.clone()));
    serde_json::to_string(&serde_json::Value::Object(record)).unwrap()
}

fn from_json(text: &str) -> UserValues {
    let record: serde_json::Value = serde_json::from_str(text).unwrap();
    UserValues {
        fish_caught: u32::try_from(record["fish_caught"].as_u64().unwrap()).unwrap(),
        money: u32::try_from(record["money"].as_u64().unwrap()).unwrap(),
        rod_name: record["rod_name"].as_str().unwrap().to_string(),
        rod_modifier: record["rod_modifier"].as_str().map(|name| name.to_string()),
        has_seen: record["has_seen"]
            .as_array()
            .unwrap()
            .iter()
            .map(|name| name.as_str().unwrap().to_string())
            .collect(),
    }
}

#[test]
fn record_round_trips_through_json() {
    let mut user = UserValues::default();
    user.record_catch(u32::MAX - 1, "Loch Ness Monster");
    user.record_catch(0, "Plastic \"Bag\"");
    user.rod_name = "Graphite Fly Rod".to_string();
    for modifier in [None, Some("Upgraded".to_string())] {
        user.rod_modifier = modifier;
        let text = to_json(&user);
        let back = from_json(&text);
        assert_eq!(back.fish_caught, user.fish_caught);
        assert_eq!(back.money, user.money);
        assert_eq!(back.rod_name, user.rod_name);
        assert_eq!(back.rod_modifier, user.rod_modifier);
        assert_eq!(back.has_seen, user.has_seen);
        assert_eq!(to_json(&back), text);
    }
}
