use vstd::prelude::*;
use vstd::string::*;
use crate::game::{Config, ConfigView, EntryView, TokenData, TokenDataView, Upgrades, copy_opt_string, copy_strings};
use crate::reply::{
    Body, Card, CardView, Field, MainResponse, MainResponseView, Reply, ReplyView,
    Status, BodyView, cards_view, error_reply, error_reply_view, opt_cards_view,
};
use crate::text::{decimal, decimal_string, first_segment, first_segment_of};

verus! {

/// The kind of an upgrade, read from the part of its name before the first `_`.
#[derive(Clone, Copy, Debug, PartialEq, Eq, Structural)]
pub enum UpgradeKind {
    Miner,
    Vault,
    Other,
}

pub open spec fn kind_of(name: Seq<char>) -> UpgradeKind {
    if first_segment(name) == "miner"@ {
        UpgradeKind::Miner
    } else if first_segment(name) == "vault"@ {
        UpgradeKind::Vault
    } else {
        UpgradeKind::Other
    }
}

/// The level table of the upgrade's kind holds `level`.
pub open spec fn has_level(kind: UpgradeKind, level: int, config: ConfigView) -> bool {
    match kind {
        UpgradeKind::Miner => config.miner.contains_key(decimal(level as nat)),
        UpgradeKind::Vault => config.vault.contains_key(decimal(level as nat)),
        UpgradeKind::Other => true,
    }
}

/// Both the upgrade's level and the next one are in its kind's table.
pub open spec fn entry_levels_known(e: EntryView, config: ConfigView) -> bool {
    has_level(kind_of(e.0), e.1 as int, config) && has_level(kind_of(e.0), e.1 + 1, config)
}

/// Every upgrade's level and next level are known.
pub open spec fn levels_known(entries: Seq<EntryView>, config: ConfigView) -> bool {
    forall|i: int| 0 <= i < entries.len() ==> entry_levels_known(#[trigger] entries[i], config)
}

/// Some upgrade of a known kind is at level 255 and its table holds that level,
/// so that counting up to its next level overflows a `u8`.
pub open spec fn level_overflows(entries: Seq<EntryView>, config: ConfigView) -> bool {
    exists|i: int|
        0 <= i < entries.len() && #[trigger] entries[i].1 == 255 && kind_of(entries[i].0)
            != UpgradeKind::Other && has_level(kind_of(entries[i].0), 255, config)
}

/// What an upgrade's current level gives.
pub open spec fn current_card(e: EntryView, config: ConfigView) -> CardView {
    let level = decimal(e.1 as nat);
    if kind_of(e.0) == UpgradeKind::Miner {
        (e.0, seq![
            ("tokens_hour"@, decimal(config.miner[level].tokens_add as nat)),
            ("level"@, level),
        ])
    } else {
        (e.0, seq![("volume"@, decimal(config.vault[level].volume as nat)), ("level"@, level)])
    }
}

/// What an upgrade's next level would give.
pub open spec fn next_card(e: EntryView, config: ConfigView) -> CardView {
    let next = decimal((e.1 + 1) as nat);
    if kind_of(e.0) == UpgradeKind::Miner {
        (e.0, seq![
            ("tokens_hour"@, decimal(config.miner[next].tokens_add as nat)),
            ("price"@, decimal(config.miner[next].buy_price as nat)),
        ])
    } else {
        (e.0, seq![("volume"@, decimal(config.vault[next].volume as nat))])
    }
}

/// The current descriptions of the miners and vaults among `entries`, in their order.
pub open spec fn current_cards(entries: Seq<EntryView>, config: ConfigView) -> Seq<CardView>
    decreases entries.len(),
{
    if entries.len() == 0 {
        Seq::empty()
    } else {
        let rest = current_cards(entries.drop_last(), config);
        if kind_of(entries.last().0) == UpgradeKind::Other {
            rest
        } else {
            rest.push(current_card(entries.last(), config))
        }
    }
}

/// The next-level descriptions of the miners and vaults among `entries`, in their order.
pub open spec fn next_cards(entries: Seq<EntryView>, config: ConfigView) -> Seq<CardView>
    decreases entries.len(),
{
    if entries.len() == 0 {
        Seq::empty()
    } else {
        let rest = next_cards(entries.drop_last(), config);
        if kind_of(entries.last().0) == UpgradeKind::Other {
            rest
        } else {
            rest.push(next_card(entries.last(), config))
        }
    }
}

fn make_field(name: &str, value: String) -> (f: Field)
    ensures
        f.name@ == name@,
        f.value@ == value@,
{
    Field { name: String::from_str(name), value }
}

/// The kind of the upgrade named `name`.
pub fn upgrade_kind(name: &str) -> (k: UpgradeKind)
    ensures
        k == kind_of(name@),
{
    let segment = first_segment_of(name);
    let miner = String::from_str("miner");
    let vault = String::from_str("vault");
    if segment == miner {
        UpgradeKind::Miner
    } else if segment == vault {
        UpgradeKind::Vault
    } else {
        UpgradeKind::Other
    }
}

/// The two descriptions of one upgrade; `Err` where a level is missing from its table.
fn entry_cards(name: &String, level: u8, config: &Config) -> (r: Result<Option<(Card, Card)>, ()>)
    requires
        !(level == 255 && kind_of(name@) != UpgradeKind::Other && has_level(
            kind_of(name@),
            255,
            config@,
        )),
    ensures
        match r {
            Err(()) => !entry_levels_known((name@, level), config@),
            Ok(None) => kind_of(name@) == UpgradeKind::Other,
            Ok(Some((c, n))) => {
                &&& kind_of(name@) != UpgradeKind::Other
                &&& entry_levels_known((name@, level), config@)
                &&& crate::reply::card_view(c) == current_card((name@, level), config@)
                &&& crate::reply::card_view(n) == next_card((name@, level), config@)
            },
        },
{
    let kind = upgrade_kind(name.as_str());
    match kind {
        UpgradeKind::Miner => {
            let level_text = decimal_string(level as u64);
            let current = match config.miner_level(level_text.as_str()) {
                Some(m) => m,
                None => {
                    return Err(());
                },
            };
            let next_text = decimal_string((level + 1) as u64);
            let next = match config.miner_level(next_text.as_str()) {
                Some(m) => m,
                None => {
                    return Err(());
                },
            };
            let mut now_fields: Vec<Field> = Vec::new();
            now_fields.push(make_field("tokens_hour", decimal_string(current.tokens_add as u64)));
            now_fields.push(make_field("level", level_text));
            let mut next_fields: Vec<Field> = Vec::new();
            next_fields.push(make_field("tokens_hour", decimal_string(next.tokens_add as u64)));
            next_fields.push(make_field("price", decimal_string(next.buy_price)));
            let c = Card { key: name.clone(), fields: now_fields };
            let n = Card { key: name.clone(), fields: next_fields };
            assert(crate::reply::card_view(c).1 =~= current_card((name@, level), config@).1);
            assert(crate::reply::card_view(n).1 =~= next_card((name@, level), config@).1);
            Ok(Some((c, n)))
        },
        UpgradeKind::Vault => {
            let level_text = decimal_string(level as u64);
            let current = match config.vault_level(level_text.as_str()) {
                Some(v) => v,
                None => {
                    return Err(());
                },
            };
            let next_text = decimal_string((level + 1) as u64);
            let next = match config.vault_level(next_text.as_str()) {
                Some(v) => v,
                None => {
                    return Err(());
                },
            };
            let mut now_fields: Vec<Field> = Vec::new();
            now_fields.push(make_field("volume", decimal_string(current.volume as u64)));
            now_fields.push(make_field("level", level_text));
            let mut next_fields: Vec<Field> = Vec::new();
            next_fields.push(make_field("volume", decimal_string(next.volume as u64)));
            let c = Card { key: name.clone(), fields: now_fields };
            let n = Card { key: name.clone(), fields: next_fields };
            assert(crate::reply::card_view(c).1 =~= current_card((name@, level), config@).1);
            assert(crate::reply::card_view(n).1 =~= next_card((name@, level), config@).1);
            Ok(Some((c, n)))
        },
        UpgradeKind::Other => Ok(None),
    }
}

/// Describes each miner and vault among `upgrades` at its level and at the next
/// one, reading both from the level tables; `None` where a table lacks one of them.
pub fn upgrade_snapshot(upgrades: &Upgrades, config: &Config) -> (r: Option<(Vec<Card>, Vec<Card>)>)
    requires
        !level_overflows(upgrades@, config@),
    ensures
        r is Some <==> levels_known(upgrades@, config@),
        r matches Some((c, n)) ==> cards_view(c@) == current_cards(upgrades@, config@)
            && cards_view(n@) == next_cards(upgrades@, config@),
{
    let ghost es = upgrades@;
    let mut now_cards: Vec<Card> = Vec::new();
    let mut next_cards_v: Vec<Card> = Vec::new();
    let n = upgrades.len();
    let mut i: usize = 0;
    while i < n
        invariant
            es == upgrades@,
            n == es.len(),
            i <= n,
            !level_overflows(es, config@),
            forall|j: int| 0 <= j < i ==> entry_levels_known(#[trigger] es[j], config@),
            cards_view(now_cards@) == current_cards(es.take(i as int), config@),
            cards_view(next_cards_v@) == next_cards(es.take(i as int), config@),
        decreases n - i,
    {
        let name = upgrades.name_at(i);
        let level = upgrades.level_at(i);
        assert(es[i as int] == (name@, level));
        assert(es.take(i + 1).drop_last() =~= es.take(i as int));
        assert(es.take(i + 1).last() == es[i as int]);
        match entry_cards(name, level, config) {
            Err(()) => {
                return None;
            },
            Ok(None) => {},
            Ok(Some((c, x))) => {
                now_cards.push(c);
                next_cards_v.push(x);
            },
        }
        assert(cards_view(now_cards@) =~= current_cards(es.take(i + 1), config@));
        assert(cards_view(next_cards_v@) =~= next_cards(es.take(i + 1), config@));
        i = i + 1;
    }
    assert(es.take(n as int) =~= es);
    Some((now_cards, next_cards_v))
}

/// The view of the response built from an account and its upgrade descriptions.
pub open spec fn response_view(
    data: TokenDataView,
    current: Option<Seq<CardView>>,
    next: Option<Seq<CardView>>,
) -> MainResponseView {
    MainResponseView {
        id: data.id,
        username: data.username,
        first_name: data.first_name,
        last_name: data.last_name,
        upgrades_current: current,
        upgrades_new: next,
        oxi_tokens_value: data.oxi_tokens_value,
        last_time_update: data.last_time_update,
        tokens_hour: data.tokens_hour,
        referal_code: data.referal_code,
        referals: data.referals,
        referals_value: decimal(data.referals.len()),
    }
}

impl TokenData {
    /// The response that shows this account with the given upgrade descriptions;
    /// `referals_value` is the number of referrals in decimal.
    pub fn build_response(
        &self,
        upgrades_chapshot: Option<Vec<Card>>,
        upgrades_chapshot_new: Option<Vec<Card>>,
    ) -> (r: MainResponse)
        ensures
            r@ == response_view(
                self@,
                opt_cards_view(upgrades_chapshot),
                opt_cards_view(upgrades_chapshot_new),
            ),
    {
        let count = self.referals.len() as u64;
        MainResponse {
            _id: self._id.clone(),
            username: copy_opt_string(&self.username),
            first_name: copy_opt_string(&self.first_name),
            last_name: copy_opt_string(&self.last_name),
            upgrades_current: upgrades_chapshot,
            upgrades_new: upgrades_chapshot_new,
            oxi_tokens_value: self.oxi_tokens_value,
            last_time_update: self.last_time_update,
            tokens_hour: self.tokens_hour,
            referal_code: self.referal_code.clone(),
            referals: copy_strings(&self.referals),
            referals_value: decimal_string(count),
        }
    }
}

/// The reply that shows an account: `500` with "Failed to Data Base" where a level
/// table lacks a level of one of its miners or vaults, else `200` with the response.
pub open spec fn account_reply(data: TokenDataView, config: ConfigView) -> ReplyView {
    if levels_known(data.upgrades, config) {
        ReplyView {
            status: Status::Success,
            body: BodyView::Data(
                response_view(
                    data,
                    Some(current_cards(data.upgrades, config)),
                    Some(next_cards(data.upgrades, config)),
                ),
            ),
        }
    } else {
        error_reply_view(Status::InternalServerError, "Failed to Data Base"@)
    }
}

/// Shows an account with its upgrades.
pub fn account_reply_of(data: &TokenData, config: &Config) -> (r: Reply)
    requires
        !level_overflows(data.upgrades@, config@),
    ensures
        r@ == account_reply(data@, config@),
{
    match upgrade_snapshot(&data.upgrades, config) {
        Some((now, next)) => Reply {
            status: Status::Success,
            body: Body::Data(data.build_response(Some(now), Some(next))),
        },
        None => error_reply(Status::InternalServerError, "Failed to Data Base"),
    }
}

/// Whether counting an upgrade of `upgrades` up to its next level would overflow.
pub fn levels_overflow(upgrades: &Upgrades, config: &Config) -> (b: bool)
    ensures
        b == level_overflows(upgrades@, config@),
{
    let n = upgrades.len();
    let mut i: usize = 0;
    let ghost es = upgrades@;
    while i < n
        invariant
            es == upgrades@,
            n == es.len(),
            i <= n,
            forall|j: int|
                0 <= j < i ==> !(#[trigger] es[j].1 == 255 && kind_of(es[j].0)
                    != UpgradeKind::Other && has_level(kind_of(es[j].0), 255, config@)),
        decreases n - i,
    {
        let level = upgrades.level_at(i);
        if level == 255 {
            let name = upgrades.name_at(i);
            let kind = upgrade_kind(name.as_str());
            let top = decimal_string(255);
            let known = match kind {
                UpgradeKind::Miner => config.miner_level(top.as_str()).is_some(),
                UpgradeKind::Vault => config.vault_level(top.as_str()).is_some(),
                UpgradeKind::Other => false,
            };
            if known {
                assert(es[i as int].1 == 255 && kind_of(es[i as int].0) != UpgradeKind::Other
                    && has_level(kind_of(es[i as int].0), 255, config@));
                return true;
            }
        }
        i = i + 1;
    }
    false
}

} // verus!
