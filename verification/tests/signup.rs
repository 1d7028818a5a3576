use oxi_tokens::account::Lookup;
use oxi_tokens::game::{Timestamp, TokenData, Upgrades};
use oxi_tokens::reply::{Body, Reply, Status};
use oxi_tokens::signup::{RegisterRequest, Signup, SignupAction, SignupEvent};

fn request(password: &str, referral: Option<&str>) -> RegisterRequest {
    RegisterRequest {
        password: password.to_string(),
        id: 123,
        username: Some("trin".to_string()),
        first_name: Some("Trinity".to_string()),
        last_name: None,
        language: "ru".to_string(),
        from_referal: referral.map(|s| s.to_string()),
    }
}

fn referrer(balance: u64) -> TokenData {
    TokenData {
        _id: "9".to_string(),
        username: None,
        first_name: None,
        last_name: None,
        register_in_game: Timestamp { bits: 0 },
        upgrades: Upgrades::new(),
        language: "en".to_string(),
        oxi_tokens_value: balance,
        last_time_update: Timestamp { bits: 0 },
        tokens_hour: 1000,
        referal_code: "257705".to_string(),
        referals: vec!["1".to_string()],
    }
}

fn error_of(action: &SignupAction) -> (Status, String) {
    match action {
        SignupAction::Reply(Reply { status, body: Body::Error(e) }) => (*status, e.error.clone()),
        _ => panic!("expected an error reply"),
    }
}

fn step(state: Signup, event: SignupEvent) -> (Signup, SignupAction) {
    assert!(state.expects(&event));
    assert!(!state.overflows(&event));
    state.step(event)
}

#[test]
fn wrong_password_is_refused() {
    let (state, action) = Signup::begin(request("1234", None), "123");
    assert!(matches!(state, Signup::Finished));
    assert_eq!(error_of(&action), (Status::BadRequest, "Auth error".to_string()));
}

#[test]
fn existing_user_is_refused() {
    let (state, action) = Signup::begin(request("123", None), "123");
    match &action {
        SignupAction::CountUsers(id) => assert_eq!(id, "123"),
        _ => panic!("expected a count"),
    }
    let (state, action) = step(state, SignupEvent::Counted(Ok(1)));
    assert!(matches!(state, Signup::Finished));
    assert_eq!(error_of(&action), (Status::BadRequest, "User already register".to_string()));
}

#[test]
fn count_and_clock_failures_are_server_errors() {
    let (state, _) = Signup::begin(request("123", None), "123");
    let (_, action) = step(state, SignupEvent::Counted(Err(())));
    assert_eq!(error_of(&action), (Status::InternalServerError, "Internal Server Error".to_string()));
    let (state, _) = Signup::begin(request("123", None), "123");
    let (state, action) = step(state, SignupEvent::Counted(Ok(0)));
    assert!(matches!(action, SignupAction::ReadClock));
    let (_, action) = step(state, SignupEvent::Clock(None));
    assert_eq!(
        error_of(&action),
        (Status::InternalServerError, "Failed to get current time".to_string())
    );
}

#[test]
fn signup_without_referral_inserts_new_account() {
    let (state, _) = Signup::begin(request("123", None), "123");
    let (state, _) = step(state, SignupEvent::Counted(Ok(0)));
    let (state, action) = step(state, SignupEvent::Clock(Some(Timestamp { bits: 42 })));
    let account = match action {
        SignupAction::Insert(a) => a,
        _ => panic!("expected an insert"),
    };
    assert_eq!(account._id, "123");
    assert_eq!(account.username, Some("trin".to_string()));
    assert_eq!(account.language, "ru");
    assert_eq!(account.oxi_tokens_value, 0);
    assert_eq!(account.tokens_hour, 1000);
    assert_eq!(account.register_in_game, Timestamp { bits: 42 });
    assert_eq!(account.last_time_update, Timestamp { bits: 42 });
    assert_eq!(account.referal_code, "257705");
    assert!(account.referals.is_empty());
    assert_eq!(account.upgrades.get("miner_1"), Some(1));
    assert_eq!(account.upgrades.get("vault_main"), Some(1));
    assert_eq!(account.upgrades.len(), 2);
    let (state, action) = step(state, SignupEvent::Saved(true));
    assert!(matches!(state, Signup::Finished));
    match action {
        SignupAction::Reply(Reply { status, body: Body::Success(s) }) => {
            assert_eq!(status, Status::Success);
            assert_eq!(s.msg, "OK");
        }
        _ => panic!("expected success"),
    }
}

#[test]
fn insert_failure_is_server_error() {
    let (state, _) = Signup::begin(request("123", None), "123");
    let (state, _) = step(state, SignupEvent::Counted(Ok(0)));
    let (state, _) = step(state, SignupEvent::Clock(Some(Timestamp { bits: 1 })));
    let (_, action) = step(state, SignupEvent::Saved(false));
    assert_eq!(
        error_of(&action),
        (Status::InternalServerError, "Failed to insert data in database".to_string())
    );
}

#[test]
fn referral_credits_both_players() {
    let (state, _) = Signup::begin(request("123", Some("257705")), "123");
    let (state, _) = step(state, SignupEvent::Counted(Ok(0)));
    let (state, action) = step(state, SignupEvent::Clock(Some(Timestamp { bits: 1 })));
    match &action {
        SignupAction::FindReferrer(code) => assert_eq!(code, "257705"),
        _ => panic!("expected a referrer lookup"),
    }
    let (state, action) = step(state, SignupEvent::ReferrerFound(Lookup::Found(referrer(10))));
    match &action {
        SignupAction::SaveReferrals { code, referals } => {
            assert_eq!(code, "257705");
            assert_eq!(referals, &vec!["1".to_string(), "123".to_string()]);
        }
        _ => panic!("expected saving referrals"),
    }
    let (state, action) = step(state, SignupEvent::Saved(true));
    match &action {
        SignupAction::SaveTokens { id, tokens } => {
            assert_eq!(id, "9");
            assert_eq!(*tokens, 25010);
        }
        _ => panic!("expected saving tokens"),
    }
    let (state, action) = step(state, SignupEvent::Saved(true));
    match action {
        SignupAction::Insert(a) => assert_eq!(a.oxi_tokens_value, 25000),
        _ => panic!("expected an insert"),
    }
    let (state, _) = step(state, SignupEvent::Saved(true));
    assert!(matches!(state, Signup::Finished));
}

#[test]
fn unknown_referral_code_is_ignored() {
    let (state, _) = Signup::begin(request("123", Some("zzzzzz")), "123");
    let (state, _) = step(state, SignupEvent::Counted(Ok(0)));
    let (state, _) = step(state, SignupEvent::Clock(Some(Timestamp { bits: 1 })));
    let (_, action) = step(state, SignupEvent::ReferrerFound(Lookup::Missing));
    match action {
        SignupAction::Insert(a) => assert_eq!(a.oxi_tokens_value, 0),
        _ => panic!("expected an insert"),
    }
}

#[test]
fn referral_store_failures_are_server_errors() {
    let start = || {
        let (state, _) = Signup::begin(request("123", Some("257705")), "123");
        let (state, _) = step(state, SignupEvent::Counted(Ok(0)));
        let (state, _) = step(state, SignupEvent::Clock(Some(Timestamp { bits: 1 })));
        state
    };
    let (_, action) = step(start(), SignupEvent::ReferrerFound(Lookup::Failed));
    assert_eq!(error_of(&action), (Status::InternalServerError, "Database query failed".to_string()));
    let (state, _) = step(start(), SignupEvent::ReferrerFound(Lookup::Found(referrer(0))));
    let (_, action) = step(state, SignupEvent::Saved(false));
    assert_eq!(error_of(&action), (Status::InternalServerError, "Failed to update document".to_string()));
    let (state, _) = step(start(), SignupEvent::ReferrerFound(Lookup::Found(referrer(0))));
    let (state, _) = step(state, SignupEvent::Saved(true));
    let (_, action) = step(state, SignupEvent::Saved(false));
    assert_eq!(
        error_of(&action),
        (Status::InternalServerError, "Failed to insert data in database".to_string())
    );
}

#[test]
fn referrer_balance_overflow_is_detected() {
    let (state, _) = Signup::begin(request("123", Some("257705")), "123");
    let (state, _) = step(state, SignupEvent::Counted(Ok(0)));
    let (state, _) = step(state, SignupEvent::Clock(Some(Timestamp { bits: 1 })));
    let (state, _) = step(state, SignupEvent::ReferrerFound(Lookup::Found(referrer(u64::MAX))));
    assert!(state.overflows(&SignupEvent::Saved(true)));
    assert!(!state.overflows(&SignupEvent::Saved(false)));
}

#[test]
fn events_out_of_turn_are_not_expected() {
    let (state, _) = Signup::begin(request("123", None), "123");
    assert!(!state.expects(&SignupEvent::Saved(true)));
    assert!(state.expects(&SignupEvent::Counted(Ok(0))));
}
