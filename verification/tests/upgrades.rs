use oxi_tokens::game::Upgrades;

fn names(u: &Upgrades) -> Vec<(String, u8)> {
    (0..u.len()).map(|i| (u.name_at(i).clone(), u.level_at(i))).collect()
}

#[test]
fn new_upgrades_are_empty() {
    let u = Upgrades::new();
    assert_eq!(u.len(), 0);
    assert_eq!(u.get("miner_1"), None);
}

#[test]
fn insert_then_get_reads_back() {
    let mut u = Upgrades::new();
    u.insert("miner_1".to_string(), 3);
    u.insert("vault_main".to_string(), 1);
    assert_eq!(u.get("miner_1"), Some(3));
    assert_eq!(u.get("vault_main"), Some(1));
    assert_eq!(u.get("miner_2"), None);
}

#[test]
fn insert_existing_replaces_in_place() {
    let mut u = Upgrades::new();
    u.insert("miner_1".to_string(), 3);
    u.insert("vault_main".to_string(), 1);
    u.insert("miner_1".to_string(), 4);
    assert_eq!(u.len(), 2);
    assert_eq!(
        names(&u),
        vec![("miner_1".to_string(), 4), ("vault_main".to_string(), 1)]
    );
}
