use oxi_tokens::account::{get_data, user_or_reply, Lookup};
use oxi_tokens::game::{Config, MinerConfig, Timestamp, TokenData, Upgrades, VaultConfig};
use oxi_tokens::reply::{
    create_error_response, create_success_response, Body, Card, Reply, Status,
};
use oxi_tokens::snapshot::{account_reply_of, levels_overflow, upgrade_kind, upgrade_snapshot, UpgradeKind};
use oxi_tokens::upgrade::{apply_upgrade, finish_update, upgrade_would_panic};
use oxi_tokens::vault::{
    credit_claim, finish_claim, stamp_claim, update_tokens_value_vault, UpdateError, VAULT_SIZE,
};

fn config() -> Config {
    let mut c = Config::new();
    for level in 1u64..=19 {
        c.add_miner_level(
            level.to_string(),
            MinerConfig { buy_price: level * 100, tokens_add: (level as u32) * 1000 },
        );
    }
    for level in 1u32..=5 {
        c.add_vault_level(level.to_string(), VaultConfig { volume: level * 5000 });
    }
    c.add_miner_price("1".to_string(), 100);
    c
}

fn account(miner: u8, vault: u8, balance: u64) -> TokenData {
    let mut upgrades = Upgrades::new();
    upgrades.insert("miner_1".to_string(), miner);
    upgrades.insert("vault_main".to_string(), vault);
    TokenData {
        _id: "77".to_string(),
        username: Some("neo".to_string()),
        first_name: None,
        last_name: Some("Anderson".to_string()),
        register_in_game: Timestamp { bits: 1 },
        upgrades,
        language: "en".to_string(),
        oxi_tokens_value: balance,
        last_time_update: Timestamp { bits: 2 },
        tokens_hour: 1000,
        referal_code: "abcdef".to_string(),
        referals: vec!["5".to_string(), "6".to_string()],
    }
}

fn error_of(reply: &Reply) -> (Status, String) {
    match &reply.body {
        Body::Error(e) => (reply.status, e.error.clone()),
        _ => panic!("not an error reply"),
    }
}

fn fields(card: &Card) -> Vec<(String, String)> {
    card.fields.iter().map(|f| (f.name.clone(), f.value.clone())).collect()
}

#[test]
fn error_and_success_bodies_hold_the_message() {
    assert_eq!(create_error_response("Auth error").error, "Auth error");
    assert_eq!(create_success_response("OK").msg, "OK");
}

#[test]
fn lookup_failures_reply_not_found_or_server_error() {
    assert_eq!(
        error_of(&user_or_reply(Lookup::Missing).err().unwrap()),
        (Status::NotFound, "User not found".to_string())
    );
    assert_eq!(
        error_of(&user_or_reply(Lookup::Failed).err().unwrap()),
        (Status::InternalServerError, "Database query failed".to_string())
    );
    let c = config();
    assert_eq!(error_of(&get_data(Lookup::Missing, &c)).0, Status::NotFound);
}

#[test]
fn upgrade_kinds_follow_the_name_prefix() {
    assert_eq!(upgrade_kind("miner_1"), UpgradeKind::Miner);
    assert_eq!(upgrade_kind("vault_main"), UpgradeKind::Vault);
    assert_eq!(upgrade_kind("miner"), UpgradeKind::Miner);
    assert_eq!(upgrade_kind("boost_1"), UpgradeKind::Other);
    assert_eq!(upgrade_kind("minerx_1"), UpgradeKind::Other);
}

#[test]
fn get_data_shows_account_and_upgrades() {
    let c = config();
    let mut data = account(2, 1, 900);
    data.upgrades.insert("boost_1".to_string(), 1);
    let reply = get_data(Lookup::Found(data), &c);
    assert_eq!(reply.status, Status::Success);
    let r = match reply.body {
        Body::Data(r) => r,
        _ => panic!("expected data"),
    };
    assert_eq!(r._id, "77");
    assert_eq!(r.username, Some("neo".to_string()));
    assert_eq!(r.first_name, None);
    assert_eq!(r.oxi_tokens_value, 900);
    assert_eq!(r.last_time_update, Timestamp { bits: 2 });
    assert_eq!(r.referals_value, "2");
    let now = r.upgrades_current.unwrap();
    let next = r.upgrades_new.unwrap();
    assert_eq!(now.len(), 2);
    assert_eq!(next.len(), 2);
    assert_eq!(now[0].key, "miner_1");
    assert_eq!(
        fields(&now[0]),
        vec![("tokens_hour".to_string(), "2000".to_string()), ("level".to_string(), "2".to_string())]
    );
    assert_eq!(
        fields(&next[0]),
        vec![("tokens_hour".to_string(), "3000".to_string()), ("price".to_string(), "300".to_string())]
    );
    assert_eq!(now[1].key, "vault_main");
    assert_eq!(
        fields(&now[1]),
        vec![("volume".to_string(), "5000".to_string()), ("level".to_string(), "1".to_string())]
    );
    assert_eq!(fields(&next[1]), vec![("volume".to_string(), "10000".to_string())]);
}

#[test]
fn missing_next_level_fails_the_snapshot() {
    let c = config();
    let data = account(1, 5, 0);
    assert!(upgrade_snapshot(&data.upgrades, &c).is_none());
    assert_eq!(
        error_of(&account_reply_of(&data, &c)),
        (Status::InternalServerError, "Failed to Data Base".to_string())
    );
}

#[test]
fn level_overflow_is_detected() {
    let mut c = config();
    let data = account(1, 255, 0);
    assert!(!levels_overflow(&data.upgrades, &c));
    c.add_vault_level("255".to_string(), VaultConfig { volume: 1 });
    assert!(levels_overflow(&data.upgrades, &c));
}

#[test]
fn update_unknown_upgrade_is_bad_request() {
    let c = config();
    let r = apply_upgrade(account(1, 1, 10_000), "miner", "miner_9", &c).err().unwrap();
    assert_eq!(error_of(&r), (Status::BadRequest, "Upgrade not found for the user".to_string()));
}

#[test]
fn update_to_miner_cap_is_refused_with_ok_status() {
    let c = config();
    let r = apply_upgrade(account(18, 1, 1_000_000), "miner", "miner_1", &c).err().unwrap();
    assert_eq!(error_of(&r), (Status::Success, "Max level".to_string()));
}

#[test]
fn update_of_other_type_fails() {
    let c = config();
    let r = apply_upgrade(account(1, 1, 1_000_000), "vault", "vault_main", &c).err().unwrap();
    assert_eq!(
        error_of(&r),
        (Status::InternalServerError, "Failed to get upgrade data".to_string())
    );
}

#[test]
fn update_without_balance_is_refused() {
    let c = config();
    let r = apply_upgrade(account(2, 1, 299), "miner", "miner_1", &c).err().unwrap();
    assert_eq!(error_of(&r), (Status::BadRequest, "Insufficient balance".to_string()));
}

#[test]
fn update_raises_level_and_charges_price() {
    let c = config();
    let d = apply_upgrade(account(2, 1, 1000), "miner", "miner_1", &c).ok().unwrap();
    assert_eq!(d.oxi_tokens_value, 700);
    assert_eq!(d.tokens_hour, 2000);
    assert_eq!(d.upgrades.get("miner_1"), Some(3));
    assert_eq!(d.upgrades.get("vault_main"), Some(1));
    assert_eq!(d.upgrades.len(), 2);
    let reply = finish_update(&d, true, &c);
    assert_eq!(reply.status, Status::Success);
    assert_eq!(
        error_of(&finish_update(&d, false, &c)),
        (Status::InternalServerError, "Failed to update user data".to_string())
    );
}

#[test]
fn update_panic_conditions_are_detected() {
    let c = config();
    assert!(upgrade_would_panic(&account(255, 1, 0), "vault", "miner_1", &c));
    assert!(!upgrade_would_panic(&account(2, 1, 0), "miner", "miner_1", &c));
    // level 19 would need level 20 from the table
    assert!(upgrade_would_panic(&account(19, 1, 1_000_000), "miner", "miner_1", &c));
    // the new level adds less than the current one
    let mut odd = Config::new();
    odd.add_miner_level("1".to_string(), MinerConfig { buy_price: 0, tokens_add: 50 });
    odd.add_miner_level("2".to_string(), MinerConfig { buy_price: 0, tokens_add: 10 });
    assert!(upgrade_would_panic(&account(1, 1, 0), "miner", "miner_1", &odd));
}

#[test]
fn vault_caps_the_claim() {
    let found = Lookup::Found(account(1, 1, 0));
    assert_eq!(update_tokens_value_vault(&found, 7000), Ok(VAULT_SIZE));
    assert_eq!(update_tokens_value_vault(&found, 4999), Ok(4999));
    assert_eq!(update_tokens_value_vault(&found, 5000), Ok(5000));
    assert_eq!(update_tokens_value_vault(&Lookup::Missing, 10), Err(UpdateError::NotFound));
    assert_eq!(update_tokens_value_vault(&Lookup::Failed, 10), Err(UpdateError::DatabaseError));
}

#[test]
fn claim_credits_stamps_and_replies() {
    let c = config();
    let d = credit_claim(account(1, 1, 100), Ok(5000)).ok().unwrap();
    assert_eq!(d.oxi_tokens_value, 5100);
    let d = stamp_claim(d, Some(Timestamp { bits: 99 })).ok().unwrap();
    assert_eq!(d.last_time_update, Timestamp { bits: 99 });
    assert_eq!(d.oxi_tokens_value, 5100);
    assert_eq!(finish_claim(&d, true, &c).status, Status::Success);
    assert_eq!(
        error_of(&finish_claim(&d, false, &c)),
        (Status::InternalServerError, "Failed to replace data in database".to_string())
    );
}

#[test]
fn claim_failures_reply_server_error() {
    let r = credit_claim(account(1, 1, 100), Err(UpdateError::NotFound)).err().unwrap();
    assert_eq!(
        error_of(&r),
        (Status::InternalServerError, "Failed to update token values".to_string())
    );
    let r = stamp_claim(account(1, 1, 100), None).err().unwrap();
    assert_eq!(
        error_of(&r),
        (Status::InternalServerError, "Failed to get current time".to_string())
    );
}
