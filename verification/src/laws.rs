use vstd::prelude::*;
use crate::game::{
    ConfigView, EntryView, Timestamp, TokenDataView, distinct_keys, key_position, lemma_key_position,
    lemma_key_position_at, level_of,
};
use crate::signup::{RegisterRequestView, STARTING_TOKENS_HOUR, REFERRAL_BONUS, SignupActionView, SignupEventView, SignupView, signup_next};
use crate::snapshot::{UpgradeKind, account_reply, current_cards, kind_of, levels_known, next_cards, response_view};
use crate::invite::{id_digest_hex, invite_code};
use crate::reply::{BodyView, CardView, Status, error_reply_view};
use crate::text::{decimal, digit_char};
use crate::upgrade::{MINER_LEVEL_CAP, miner_at, set_level, upgrade_outcome, upgrade_panics};
use crate::vault::{VAULT_SIZE, credited, stamped, vault_tokens};

verus! {

/// Setting an upgrade's level and then reading it back gives the level set; every
/// other upgrade reads as before; and no name comes to occur twice.
pub proof fn law_set_level_read_back(entries: Seq<EntryView>, key: Seq<char>, level: u8, other: Seq<char>)
    requires
        distinct_keys(entries),
    ensures
        level_of(set_level(entries, key, level), key) == Some(level),
        other != key ==> level_of(set_level(entries, key, level), other) == level_of(entries, other),
        distinct_keys(set_level(entries, key, level)),
{
    let after = set_level(entries, key, level);
    lemma_key_position(entries, key);
    lemma_key_position(entries, other);
    match key_position(entries, key) {
        Some(i) => {
            assert(after == entries.update(i, (key, level)));
            assert(distinct_keys(after));
            lemma_key_position_at(after, key, i);
            match key_position(entries, other) {
                Some(j) => {
                    if other != key {
                        lemma_key_position_at(after, other, j);
                    }
                },
                None => {
                    lemma_key_position(after, other);
                },
            }
        },
        None => {
            assert(after == entries.push((key, level)));
            assert(distinct_keys(after));
            lemma_key_position_at(after, key, entries.len() as int);
            match key_position(entries, other) {
                Some(j) => {
                    if other != key {
                        assert(after[j] == entries[j]);
                        lemma_key_position_at(after, other, j);
                    }
                },
                None => {
                    lemma_key_position(after, other);
                },
            }
        },
    }
}

/// A granted upgrade raises exactly the requested upgrade by exactly one level, leaves
/// every other upgrade as it was, takes exactly the price of the new level from the
/// balance, which covered it, changes the tokens per hour by what the new level adds
/// over the old one, and never brings a miner to the level cap.
pub proof fn law_upgrade_raises_one_level(
    data: TokenDataView,
    kind: Seq<char>,
    id: Seq<char>,
    config: ConfigView,
    other: Seq<char>,
)
    requires
        distinct_keys(data.upgrades),
        !upgrade_panics(data, kind, id, config),
        upgrade_outcome(data, kind, id, config) is Ok,
    ensures
        ({
            let after = upgrade_outcome(data, kind, id, config)->Ok_0;
            let level = level_of(data.upgrades, id)->Some_0;
            let price = miner_at(config, level + 1).buy_price;
            &&& level_of(data.upgrades, id) is Some
            &&& level + 1 != MINER_LEVEL_CAP
            &&& level_of(after.upgrades, id) == Some((level + 1) as u8)
            &&& (other != id ==> level_of(after.upgrades, other) == level_of(data.upgrades, other))
            &&& data.oxi_tokens_value >= price
            &&& after.oxi_tokens_value + price == data.oxi_tokens_value
            &&& after.tokens_hour + miner_at(config, level as int).tokens_add == data.tokens_hour
                + miner_at(config, level + 1).tokens_add
            &&& after.id == data.id && after.referals == data.referals
                && after.referal_code == data.referal_code
        }),
{
    let level = level_of(data.upgrades, id)->Some_0;
    law_set_level_read_back(data.upgrades, id, (level + 1) as u8, other);
}

/// A claim credits what the vault holds, never more than `VAULT_SIZE` tokens, and
/// changes nothing but the balance and the time of the last claim.
pub proof fn law_claim_bounded(data: TokenDataView, accrued: u64, now: Timestamp)
    requires
        data.oxi_tokens_value + vault_tokens(accrued) <= u64::MAX,
    ensures
        ({
            let after = stamped(credited(data, vault_tokens(accrued)), now);
            &&& data.oxi_tokens_value <= after.oxi_tokens_value <= data.oxi_tokens_value
                + VAULT_SIZE
            &&& after.oxi_tokens_value <= data.oxi_tokens_value + accrued
            &&& after.last_time_update == now
            &&& after == TokenDataView {
                oxi_tokens_value: after.oxi_tokens_value,
                last_time_update: now,
                ..data
            }
        }),
{
}

/// A referral that the store recorded gives the bonus to both players: the new
/// account is credited exactly `REFERRAL_BONUS`, and the inviting account is written
/// back with exactly `REFERRAL_BONUS` more than it had.
pub proof fn law_referral_credits_both(account: TokenDataView, referrer: TokenDataView)
    requires
        account.oxi_tokens_value + REFERRAL_BONUS <= u64::MAX,
        referrer.oxi_tokens_value + REFERRAL_BONUS <= u64::MAX,
    ensures
        ({
            let (next, action) = signup_next(
                SignupView::SavingReferrals { account, referrer },
                SignupEventView::Saved(true),
            );
            &&& next matches SignupView::SavingBonus(a) && a.oxi_tokens_value
                == account.oxi_tokens_value + REFERRAL_BONUS && a.id == account.id
            &&& action matches SignupActionView::SaveTokens { id, tokens } && id == referrer.id
                && tokens == referrer.oxi_tokens_value + REFERRAL_BONUS
        }),
{
}

/// An inviting account that is found gets the new player's id appended to its
/// referrals, and that whole list is what is written back.
pub proof fn law_referral_recorded(account: TokenDataView, code: Seq<char>, found: TokenDataView)
    ensures
        ({
            let (next, action) = signup_next(
                SignupView::FindingReferrer { account, code },
                SignupEventView::ReferrerFound(crate::account::LookupView::Found(found)),
            );
            &&& next matches SignupView::SavingReferrals { referrer, .. } && referrer.referals
                == found.referals.push(account.id)
            &&& action matches SignupActionView::SaveReferrals { code: c, referals } && c == code
                && referals == found.referals.push(account.id)
        }),
{
}

/// The current and the next-level descriptions list the same upgrades in the same
/// order, and only miners and vaults.
pub proof fn law_cards_align(entries: Seq<EntryView>, config: ConfigView)
    ensures
        current_cards(entries, config).len() == next_cards(entries, config).len(),
        current_cards(entries, config).len() <= entries.len(),
        forall|i: int|
            0 <= i < current_cards(entries, config).len() ==> #[trigger] current_cards(
                entries,
                config,
            )[i].0 == next_cards(entries, config)[i].0 && kind_of(current_cards(entries, config)[i].0)
                != UpgradeKind::Other,
    decreases entries.len(),
{
    if entries.len() > 0 {
        law_cards_align(entries.drop_last(), config);
    }
}

proof fn lemma_decimal_len(n: nat)
    ensures
        decimal(n).len() >= 1,
        n >= 10 ==> decimal(n).len() >= 2,
    decreases n,
{
    if n >= 10 {
        lemma_decimal_len(n / 10);
    }
}

/// Different numbers are written differently in decimal, so that a level table keyed by
/// the written level finds each level again.
pub proof fn law_decimal_injective(a: nat, b: nat)
    requires
        decimal(a) == decimal(b),
    ensures
        a == b,
    decreases a,
{
    lemma_decimal_len(a);
    lemma_decimal_len(b);
    if a < 10 && b < 10 {
        assert(decimal(a)[0] == digit_char(a));
        assert(decimal(b)[0] == digit_char(b));
    } else if a >= 10 && b >= 10 {
        assert(decimal(a).last() == digit_char(a % 10));
        assert(decimal(b).last() == digit_char(b % 10));
        assert(decimal(a).drop_last() =~= decimal(a / 10));
        assert(decimal(b).drop_last() =~= decimal(b / 10));
        law_decimal_injective(a / 10, b / 10);
    }
}

/// An upgrade request is granted exactly when the account owns the upgrade, the request
/// is for a miner, the new level is below the cap and the balance covers the price of
/// the new level alone; a missing upgrade is a `400` "Upgrade not found for the user",
/// a balance short of that price a `400` "Insufficient balance", and a granted upgrade
/// leaves the balance less exactly that price.
pub proof fn law_upgrade_granted_when_affordable(
    data: TokenDataView,
    kind: Seq<char>,
    id: Seq<char>,
    config: ConfigView,
)
    ensures
        upgrade_outcome(data, kind, id, config) is Ok <==> ({
            &&& level_of(data.upgrades, id) is Some
            &&& kind == "miner"@
            &&& level_of(data.upgrades, id)->Some_0 + 1 != MINER_LEVEL_CAP
            &&& data.oxi_tokens_value >= miner_at(
                config,
                level_of(data.upgrades, id)->Some_0 + 1,
            ).buy_price
        }),
        level_of(data.upgrades, id) is None ==> upgrade_outcome(data, kind, id, config) == Err::<
            TokenDataView,
            crate::reply::ReplyView,
        >(error_reply_view(Status::BadRequest, "Upgrade not found for the user"@)),
        ({
            let level = level_of(data.upgrades, id)->Some_0;
            (level_of(data.upgrades, id) is Some && kind == "miner"@ && level + 1 != MINER_LEVEL_CAP
                && data.oxi_tokens_value < miner_at(config, level + 1).buy_price) ==> upgrade_outcome(
                data,
                kind,
                id,
                config,
            ) == Err::<TokenDataView, crate::reply::ReplyView>(
                error_reply_view(Status::BadRequest, "Insufficient balance"@),
            )
        }),
        upgrade_outcome(data, kind, id, config) is Ok ==> upgrade_outcome(
            data,
            kind,
            id,
            config,
        )->Ok_0.oxi_tokens_value == data.oxi_tokens_value - miner_at(
            config,
            level_of(data.upgrades, id)->Some_0 + 1,
        ).buy_price,
{
}

/// The vault gives what was mined while that is at most its size, and its size beyond:
/// the least of the two. More mined never gives less.
pub proof fn law_vault_gives_least(accrued: u64, more: u64)
    ensures
        accrued <= VAULT_SIZE ==> vault_tokens(accrued) == accrued,
        accrued > VAULT_SIZE ==> vault_tokens(accrued) == VAULT_SIZE,
        vault_tokens(accrued) <= accrued && vault_tokens(accrued) <= VAULT_SIZE,
        accrued <= more ==> vault_tokens(accrued) <= vault_tokens(more),
{
}

/// The response shows the account's own values, the descriptions it was given, and the
/// number of its referrals in decimal; the reply to a request for an account whose levels
/// are all known is `200` with that response.
pub proof fn law_response_shows_account(
    data: TokenDataView,
    current: Option<Seq<CardView>>,
    next: Option<Seq<CardView>>,
    config: ConfigView,
)
    ensures
        ({
            let r = response_view(data, current, next);
            &&& r.id == data.id
            &&& r.username == data.username
            &&& r.first_name == data.first_name
            &&& r.last_name == data.last_name
            &&& r.upgrades_current == current
            &&& r.upgrades_new == next
            &&& r.oxi_tokens_value == data.oxi_tokens_value
            &&& r.last_time_update == data.last_time_update
            &&& r.tokens_hour == data.tokens_hour
            &&& r.referal_code == data.referal_code
            &&& r.referals == data.referals
            &&& r.referals_value == decimal(data.referals.len())
        }),
        levels_known(data.upgrades, config) ==> ({
            let reply = account_reply(data, config);
            &&& reply.status == Status::Success
            &&& reply.body matches BodyView::Data(r) && r.id == data.id && r.referal_code
                == data.referal_code && r.referals == data.referals && r.oxi_tokens_value
                == data.oxi_tokens_value && r.tokens_hour == data.tokens_hour && r.upgrades_current
                == Some(current_cards(data.upgrades, config)) && r.upgrades_new == Some(
                next_cards(data.upgrades, config),
            )
        }),
{
}

/// The invite code of an id is the tail of six characters of the hex writing of its
/// double digest, whatever the id.
pub proof fn law_invite_code_is_digest_tail(id: Seq<char>)
    ensures
        invite_code(id) == id_digest_hex(id).subrange(
            id_digest_hex(id).len() - 6,
            id_digest_hex(id).len() as int,
        ),
{
}

/// Once the clock is read, the new account carries the request's id, names and language,
/// starts with nothing on its balance, the starting tokens per hour, the first miner and
/// the main vault at level 1, no referrals, the invite code of its id and the clock's time;
/// it is stored at once when the request names no referrer, else the referrer is looked up
/// by the code the request gave.
pub proof fn law_new_account_carries_request(request: RegisterRequestView, now: Timestamp)
    ensures
        ({
            let (next, action) = signup_next(
                SignupView::Clocking(request),
                SignupEventView::Clock(Some(now)),
            );
            let opened = |a: TokenDataView|
                {
                    &&& a.id == decimal(request.id as nat)
                    &&& a.username == request.username
                    &&& a.first_name == request.first_name
                    &&& a.last_name == request.last_name
                    &&& a.language == request.language
                    &&& a.oxi_tokens_value == 0
                    &&& a.tokens_hour == STARTING_TOKENS_HOUR
                    &&& a.register_in_game == now
                    &&& a.last_time_update == now
                    &&& a.referals == Seq::<Seq<char>>::empty()
                    &&& a.referal_code == invite_code(decimal(request.id as nat))
                    &&& a.upgrades == seq![("miner_1"@, 1u8), ("vault_main"@, 1u8)]
                };
            match request.from_referal {
                None => {
                    &&& next == SignupView::Inserting
                    &&& (action matches SignupActionView::Insert(a) && opened(a))
                },
                Some(code) => {
                    &&& (next matches SignupView::FindingReferrer { account, code: c } && c == code
                        && opened(account))
                    &&& action == SignupActionView::FindReferrer(code)
                },
            }
        }),
{
}

} // verus!
