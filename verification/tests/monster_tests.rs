use damage_calc::monster::{create_default_monsters, Monster, MonsterDatabase, MonsterError};

#[test]
fn test_rejects_zero_hp() {
    assert_eq!(
        Monster::new("m", "m", 1, 0, 0, 0, 0, 100, 0).unwrap_err(),
        MonsterError::InvalidHp
    );
}

#[test]
fn test_rejects_cut_rate_of_one_or_more() {
    assert_eq!(
        Monster::new("m", "m", 1, 10, 0, 0, 0, 1000, 0).unwrap_err(),
        MonsterError::InvalidCutRate
    );
    assert_eq!(
        Monster::new("m", "m", 1, 10, 0, 0, 0, 2500, 0).unwrap_err(),
        MonsterError::InvalidCutRate
    );
}

#[test]
fn test_construction_keeps_fields() {
    let m = Monster::new("slime", "スライム", 3, 40, 5, 2, 1, 150, 9).unwrap();
    assert_eq!(m.id, "slime");
    assert_eq!(m.name, "スライム");
    assert_eq!(m.level, 3);
    assert_eq!(m.hp, 40);
    assert_eq!(m.defense, 5);
    assert_eq!(m.fixed_defense, 2);
    assert_eq!(m.fixed_reduction, 1);
    assert_eq!(m.cut_rate_permille, 150);
    assert_eq!(m.element_resistance, 9);
    assert!(m.image_url.is_none());
}

#[test]
fn test_with_image_attaches_url() {
    let m = Monster::new("slime", "スライム", 3, 40, 5, 2, 1, 150, 9)
        .unwrap()
        .with_image("https://example.com/slime.png");
    assert_eq!(m.image_url.as_deref(), Some("https://example.com/slime.png"));
    assert_eq!(m.id, "slime");
}

#[test]
fn test_lookup_returns_first_match() {
    let mut db = MonsterDatabase::new();
    db.add_monster(Monster::new("dup", "first", 1, 10, 0, 0, 0, 0, 0).unwrap());
    db.add_monster(Monster::new("dup", "second", 2, 20, 0, 0, 0, 0, 0).unwrap());
    let found = db.find_by_id("dup").unwrap();
    assert_eq!(found.name, "first");
    assert_eq!(found.hp, 10);
}

#[test]
fn test_lookup_by_name() {
    let mut db = MonsterDatabase::new();
    db.add_monster(Monster::new("a", "アルファ", 1, 10, 0, 0, 0, 0, 0).unwrap());
    db.add_monster(Monster::new("b", "ベータ", 2, 20, 0, 0, 0, 0, 0).unwrap());
    assert_eq!(db.find_by_name("ベータ").unwrap().id, "b");
    assert!(db.find_by_name("ガンマ").is_none());
}

#[test]
fn test_reference_table_scenario() {
    let db = create_default_monsters();
    assert_eq!(db.monsters.len(), 9);

    let boss = db.find_by_id("appleboss").unwrap();
    assert_eq!(boss.hp, 1000);
    assert_eq!(boss.cut_rate_permille, 480);
    assert_eq!(boss.name, "りんごボス");

    assert!(db.find_by_id("does_not_exist").is_none());
}

#[test]
fn test_reference_table_rows() {
    let db = create_default_monsters();
    let ids: Vec<&str> = db.monsters.iter().map(|m| m.id.as_str()).collect();
    assert_eq!(
        ids,
        vec![
            "appleboss",
            "abysshell",
            "abyssamas",
            "eclipse1",
            "eclipse2",
            "eclipse3",
            "siokanboss",
            "odein",
            "kimaira"
        ]
    );
    let kimaira = db.find_by_id("kimaira").unwrap();
    assert_eq!(kimaira.defense, 900);
    assert_eq!(kimaira.fixed_defense, 2985);
    assert_eq!(kimaira.fixed_reduction, 0);
    assert_eq!(kimaira.cut_rate_permille, 993);
    assert_eq!(
        kimaira.image_url.as_deref(),
        Some("https://example.com/kimaira.png")
    );
}
