use vstd::prelude::*;
use vstd::string::*;
use crate::account::{Lookup, LookupView};
use crate::game::{EntryView, key_position, Timestamp, TokenData, TokenDataView, Upgrades, copy_strings};
use crate::invite::{generate_invite_code, invite_code};
use crate::reply::{
    Reply, ReplyView, BodyView, Status, error_reply, error_reply_view, opt_string_view, strings_view,
    success_reply,
};
use crate::text::{decimal, decimal_string};
use crate::vault::credited;

verus! {

/// The tokens that both the new player and the player who invited them receive.
pub const REFERRAL_BONUS: u64 = 25000;

/// The tokens per hour that a new account mines.
pub const STARTING_TOKENS_HOUR: u32 = 1000;

/// A request to open an account.
pub struct RegisterRequest {
    pub password: String,
    pub id: u64,
    pub username: Option<String>,
    pub first_name: Option<String>,
    pub last_name: Option<String>,
    pub language: String,
    pub from_referal: Option<String>,
}

pub struct RegisterRequestView {
    pub password: Seq<char>,
    pub id: u64,
    pub username: Option<Seq<char>>,
    pub first_name: Option<Seq<char>>,
    pub last_name: Option<Seq<char>>,
    pub language: Seq<char>,
    pub from_referal: Option<Seq<char>>,
}

impl View for RegisterRequest {
    type V = RegisterRequestView;

    open spec fn view(&self) -> RegisterRequestView {
        RegisterRequestView {
            password: self.password@,
            id: self.id,
            username: opt_string_view(self.username),
            first_name: opt_string_view(self.first_name),
            last_name: opt_string_view(self.last_name),
            language: self.language@,
            from_referal: opt_string_view(self.from_referal),
        }
    }
}

/// The upgrades of a new account: the first miner and the main vault, both at level 1.
pub open spec fn starting_upgrades() -> Seq<EntryView> {
    seq![("miner_1"@, 1u8), ("vault_main"@, 1u8)]
}

/// The account opened for `request` at time `now`.
pub open spec fn new_account(request: RegisterRequestView, now: Timestamp) -> TokenDataView {
    TokenDataView {
        id: decimal(request.id as nat),
        username: request.username,
        first_name: request.first_name,
        last_name: request.last_name,
        register_in_game: now,
        upgrades: starting_upgrades(),
        language: request.language,
        oxi_tokens_value: 0,
        last_time_update: now,
        tokens_hour: STARTING_TOKENS_HOUR,
        referal_code: invite_code(decimal(request.id as nat)),
        referals: Seq::empty(),
    }
}

/// Where the opening of an account stands, between two calls to the store.
pub enum Signup {
    /// Waiting for the number of accounts with the requested id.
    Counting(RegisterRequest),
    /// Waiting for the clock.
    Clocking(RegisterRequest),
    /// Waiting for the account whose referral code the request gave.
    FindingReferrer { account: TokenData, code: String },
    /// Waiting for the inviting account's list of referrals to be written.
    SavingReferrals { account: TokenData, referrer: TokenData },
    /// Waiting for the inviting account's balance to be written.
    SavingBonus(TokenData),
    /// Waiting for the new account to be stored.
    Inserting,
    /// Answered.
    Finished,
}

/// What the store or the clock answered.
pub enum SignupEvent {
    Counted(Result<u64, ()>),
    Clock(Option<Timestamp>),
    ReferrerFound(Lookup),
    Saved(bool),
}

/// What to do next.
pub enum SignupAction {
    /// Count the accounts with this id.
    CountUsers(String),
    /// Read the clock.
    ReadClock,
    /// Look up the account with this referral code.
    FindReferrer(String),
    /// Set the referrals of the account with referral code `code`.
    SaveReferrals { code: String, referals: Vec<String> },
    /// Set the balance of the account with id `id`.
    SaveTokens { id: String, tokens: u64 },
    /// Store this new account.
    Insert(TokenData),
    /// Send this reply; the request is answered.
    Reply(Reply),
}

pub enum SignupView {
    Counting(RegisterRequestView),
    Clocking(RegisterRequestView),
    FindingReferrer { account: TokenDataView, code: Seq<char> },
    SavingReferrals { account: TokenDataView, referrer: TokenDataView },
    SavingBonus(TokenDataView),
    Inserting,
    Finished,
}

pub enum SignupEventView {
    Counted(Result<u64, ()>),
    Clock(Option<Timestamp>),
    ReferrerFound(LookupView),
    Saved(bool),
}

pub enum SignupActionView {
    CountUsers(Seq<char>),
    ReadClock,
    FindReferrer(Seq<char>),
    SaveReferrals { code: Seq<char>, referals: Seq<Seq<char>> },
    SaveTokens { id: Seq<char>, tokens: u64 },
    Insert(TokenDataView),
    Reply(ReplyView),
}

impl View for Signup {
    type V = SignupView;

    open spec fn view(&self) -> SignupView {
        match self {
            Signup::Counting(r) => SignupView::Counting(r@),
            Signup::Clocking(r) => SignupView::Clocking(r@),
            Signup::FindingReferrer { account, code } => SignupView::FindingReferrer {
                account: account@,
                code: code@,
            },
            Signup::SavingReferrals { account, referrer } => SignupView::SavingReferrals {
                account: account@,
                referrer: referrer@,
            },
            Signup::SavingBonus(a) => SignupView::SavingBonus(a@),
            Signup::Inserting => SignupView::Inserting,
            Signup::Finished => SignupView::Finished,
        }
    }
}

impl View for SignupEvent {
    type V = SignupEventView;

    open spec fn view(&self) -> SignupEventView {
        match self {
            SignupEvent::Counted(c) => SignupEventView::Counted(*c),
            SignupEvent::Clock(c) => SignupEventView::Clock(*c),
            SignupEvent::ReferrerFound(f) => SignupEventView::ReferrerFound(f@),
            SignupEvent::Saved(b) => SignupEventView::Saved(*b),
        }
    }
}

impl View for SignupAction {
    type V = SignupActionView;

    open spec fn view(&self) -> SignupActionView {
        match self {
            SignupAction::CountUsers(id) => SignupActionView::CountUsers(id@),
            SignupAction::ReadClock => SignupActionView::ReadClock,
            SignupAction::FindReferrer(code) => SignupActionView::FindReferrer(code@),
            SignupAction::SaveReferrals { code, referals } => SignupActionView::SaveReferrals {
                code: code@,
                referals: strings_view(referals@),
            },
            SignupAction::SaveTokens { id, tokens } => SignupActionView::SaveTokens {
                id: id@,
                tokens: *tokens,
            },
            SignupAction::Insert(a) => SignupActionView::Insert(a@),
            SignupAction::Reply(r) => SignupActionView::Reply(r@),
        }
    }
}

/// The reply that ends the opening of an account with an error.
pub open spec fn fail(status: Status, message: Seq<char>) -> (SignupView, SignupActionView) {
    (SignupView::Finished, SignupActionView::Reply(error_reply_view(status, message)))
}

/// How the opening of an account starts: `400` "Auth error" unless the request
/// carries the server's password, else counting the accounts with the requested id.
pub open spec fn signup_start(request: RegisterRequestView, password: Seq<char>) -> (SignupView, SignupActionView) {
    if request.password != password {
        fail(Status::BadRequest, "Auth error"@)
    } else {
        (SignupView::Counting(request), SignupActionView::CountUsers(decimal(request.id as nat)))
    }
}

/// The step from one state to the next on an answer of the store or the clock.
pub open spec fn signup_next(state: SignupView, event: SignupEventView) -> (SignupView, SignupActionView) {
    match (state, event) {
        (SignupView::Counting(request), SignupEventView::Counted(count)) => match count {
            Err(_) => fail(Status::InternalServerError, "Internal Server Error"@),
            Ok(n) => if n > 0 {
                fail(Status::BadRequest, "User already register"@)
            } else {
                (SignupView::Clocking(request), SignupActionView::ReadClock)
            },
        },
        (SignupView::Clocking(request), SignupEventView::Clock(clock)) => match clock {
            None => fail(Status::InternalServerError, "Failed to get current time"@),
            Some(now) => {
                let account = new_account(request, now);
                match request.from_referal {
                    Some(code) => (
                        SignupView::FindingReferrer { account, code },
                        SignupActionView::FindReferrer(code),
                    ),
                    None => (SignupView::Inserting, SignupActionView::Insert(account)),
                }
            },
        },
        (SignupView::FindingReferrer { account, code }, SignupEventView::ReferrerFound(found)) => {
            match found {
                LookupView::Failed => fail(Status::InternalServerError, "Database query failed"@),
                LookupView::Missing => (SignupView::Inserting, SignupActionView::Insert(account)),
                LookupView::Found(d) => {
                    let referrer = TokenDataView { referals: d.referals.push(account.id), ..d };
                    (
                        SignupView::SavingReferrals { account, referrer },
                        SignupActionView::SaveReferrals { code, referals: referrer.referals },
                    )
                },
            }
        },
        (SignupView::SavingReferrals { account, referrer }, SignupEventView::Saved(ok)) => if !ok {
            fail(Status::InternalServerError, "Failed to update document"@)
        } else {
            (
                SignupView::SavingBonus(credited(account, REFERRAL_BONUS)),
                SignupActionView::SaveTokens {
                    id: referrer.id,
                    tokens: (referrer.oxi_tokens_value + REFERRAL_BONUS) as u64,
                },
            )
        },
        (SignupView::SavingBonus(account), SignupEventView::Saved(ok)) => if !ok {
            fail(Status::InternalServerError, "Failed to insert data in database"@)
        } else {
            (SignupView::Inserting, SignupActionView::Insert(account))
        },
        (SignupView::Inserting, SignupEventView::Saved(ok)) => if !ok {
            fail(Status::InternalServerError, "Failed to insert data in database"@)
        } else {
            (
                SignupView::Finished,
                SignupActionView::Reply(ReplyView { status: Status::Success, body: BodyView::Success("OK"@) }),
            )
        },
        _ => (SignupView::Finished, SignupActionView::ReadClock),
    }
}

/// The state waits for an answer of the kind the event is.
pub open spec fn signup_expects(state: SignupView, event: SignupEventView) -> bool {
    match state {
        SignupView::Counting(_) => event is Counted,
        SignupView::Clocking(_) => event is Clock,
        SignupView::FindingReferrer { .. } => event is ReferrerFound,
        SignupView::SavingReferrals { .. } => event is Saved,
        SignupView::SavingBonus(_) => event is Saved,
        SignupView::Inserting => event is Saved,
        SignupView::Finished => false,
    }
}

/// Crediting the inviting account on this event would overflow its balance.
pub open spec fn signup_overflows(state: SignupView, event: SignupEventView) -> bool {
    &&& state matches SignupView::SavingReferrals { account, referrer }
    &&& event == SignupEventView::Saved(true)
    &&& (referrer.oxi_tokens_value + REFERRAL_BONUS > u64::MAX || account.oxi_tokens_value
        + REFERRAL_BONUS > u64::MAX)
}

/// The account that `request` opens at `now`, with its id and referral code.
fn open_account(request: RegisterRequest, now: Timestamp) -> (r: (TokenData, Option<String>))
    ensures
        r.0@ == new_account(request@, now),
        opt_string_view(r.1) == request@.from_referal,
{
    let id = decimal_string(request.id);
    let code = generate_invite_code(id.clone());
    let mut upgrades = Upgrades::new();
    let miner = String::from_str("miner_1");
    let vault = String::from_str("vault_main");
    proof {
        reveal_strlit("miner_1");
        reveal_strlit("vault_main");
        assert(miner@ != vault@) by {
            assert(miner@[0] != vault@[0]);
        }
    }
    let ghost m = miner@;
    let ghost v = vault@;
    upgrades.insert(miner, 1);
    assert(upgrades@ =~= seq![(m, 1u8)]);
    assert(key_position(upgrades@, v) is None) by {
        assert(m != v);
        assert(upgrades@.last().0 == m);
        assert(upgrades@.drop_last() =~= Seq::<EntryView>::empty());
        assert(key_position(Seq::<EntryView>::empty(), v) is None);
    }
    upgrades.insert(vault, 1);
    let account = TokenData {
        _id: id,
        username: request.username,
        first_name: request.first_name,
        last_name: request.last_name,
        register_in_game: now,
        upgrades,
        language: request.language,
        oxi_tokens_value: 0,
        last_time_update: now,
        tokens_hour: STARTING_TOKENS_HOUR,
        referal_code: code,
        referals: Vec::new(),
    };
    assert(account@.upgrades =~= starting_upgrades());
    assert(account@.referals =~= Seq::<Seq<char>>::empty());
    (account, request.from_referal)
}

impl Signup {
    /// Starts opening an account for `request` on a server whose password is `password`.
    pub fn begin(request: RegisterRequest, password: &str) -> (r: (Signup, SignupAction))
        ensures
            (r.0@, r.1@) == signup_start(request@, password@),
    {
        if String::from_str(password) != request.password {
            return (Signup::Finished, SignupAction::Reply(error_reply(Status::BadRequest, "Auth error")));
        }
        let id = decimal_string(request.id);
        (Signup::Counting(request), SignupAction::CountUsers(id))
    }

    /// Whether this state waits for an answer of the kind `event` is.
    pub fn expects(&self, event: &SignupEvent) -> (b: bool)
        ensures
            b == signup_expects(self@, event@),
    {
        match (self, event) {
            (Signup::Counting(_), SignupEvent::Counted(_)) => true,
            (Signup::Clocking(_), SignupEvent::Clock(_)) => true,
            (Signup::FindingReferrer { .. }, SignupEvent::ReferrerFound(_)) => true,
            (Signup::SavingReferrals { .. }, SignupEvent::Saved(_)) => true,
            (Signup::SavingBonus(_), SignupEvent::Saved(_)) => true,
            (Signup::Inserting, SignupEvent::Saved(_)) => true,
            _ => false,
        }
    }

    /// Whether crediting the inviting account on `event` would overflow its balance.
    pub fn overflows(&self, event: &SignupEvent) -> (b: bool)
        ensures
            b == signup_overflows(self@, event@),
    {
        match (self, event) {
            (Signup::SavingReferrals { account, referrer }, SignupEvent::Saved(true)) =>
                referrer.oxi_tokens_value > u64::MAX - REFERRAL_BONUS || account.oxi_tokens_value
                    > u64::MAX - REFERRAL_BONUS,
            _ => false,
        }
    }

    /// Takes the step that `event` calls for.
    pub fn step(self, event: SignupEvent) -> (r: (Signup, SignupAction))
        requires
            signup_expects(self@, event@),
            !signup_overflows(self@, event@),
        ensures
            (r.0@, r.1@) == signup_next(self@, event@),
    {
        match (self, event) {
            (Signup::Counting(request), SignupEvent::Counted(count)) => match count {
                Err(_) => (
                    Signup::Finished,
                    SignupAction::Reply(error_reply(Status::InternalServerError, "Internal Server Error")),
                ),
                Ok(n) => if n > 0 {
                    (
                        Signup::Finished,
                        SignupAction::Reply(error_reply(Status::BadRequest, "User already register")),
                    )
                } else {
                    (Signup::Clocking(request), SignupAction::ReadClock)
                },
            },
            (Signup::Clocking(request), SignupEvent::Clock(clock)) => match clock {
                None => (
                    Signup::Finished,
                    SignupAction::Reply(
                        error_reply(Status::InternalServerError, "Failed to get current time"),
                    ),
                ),
                Some(now) => {
                    let (account, referral) = open_account(request, now);
                    match referral {
                        Some(code) => {
                            let asked = code.clone();
                            (Signup::FindingReferrer { account, code }, SignupAction::FindReferrer(asked))
                        },
                        None => (Signup::Inserting, SignupAction::Insert(account)),
                    }
                },
            },
            (Signup::FindingReferrer { account, code }, SignupEvent::ReferrerFound(found)) => {
                match found {
                    Lookup::Failed => (
                        Signup::Finished,
                        SignupAction::Reply(
                            error_reply(Status::InternalServerError, "Database query failed"),
                        ),
                    ),
                    Lookup::Missing => (Signup::Inserting, SignupAction::Insert(account)),
                    Lookup::Found(d) => {
                        let mut referrer = d;
                        referrer.referals.push(account._id.clone());
                        let referals = copy_strings(&referrer.referals);
                        proof {
                            assert(strings_view(referrer.referals@) =~= strings_view(
                                d.referals@,
                            ).push(account._id@));
                        }
                        (
                            Signup::SavingReferrals { account, referrer },
                            SignupAction::SaveReferrals { code, referals },
                        )
                    },
                }
            },
            (Signup::SavingReferrals { account, referrer }, SignupEvent::Saved(ok)) => if !ok {
                (
                    Signup::Finished,
                    SignupAction::Reply(
                        error_reply(Status::InternalServerError, "Failed to update document"),
                    ),
                )
            } else {
                let mut account = account;
                account.oxi_tokens_value = account.oxi_tokens_value + REFERRAL_BONUS;
                let tokens = referrer.oxi_tokens_value + REFERRAL_BONUS;
                (Signup::SavingBonus(account), SignupAction::SaveTokens { id: referrer._id, tokens })
            },
            (Signup::SavingBonus(account), SignupEvent::Saved(ok)) => if !ok {
                (
                    Signup::Finished,
                    SignupAction::Reply(
                        error_reply(Status::InternalServerError, "Failed to insert data in database"),
                    ),
                )
            } else {
                (Signup::Inserting, SignupAction::Insert(account))
            },
            (Signup::Inserting, SignupEvent::Saved(ok)) => if !ok {
                (
                    Signup::Finished,
                    SignupAction::Reply(
                        error_reply(Status::InternalServerError, "Failed to insert data in database"),
                    ),
                )
            } else {
                (Signup::Finished, SignupAction::Reply(success_reply("OK")))
            },
            _ => (Signup::Finished, SignupAction::ReadClock),
        }
    }
}

} // verus!
