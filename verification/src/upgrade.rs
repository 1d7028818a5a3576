use vstd::prelude::*;
use vstd::string::*;
use crate::game::{
    Config, ConfigView, EntryView, MinerConfig, TokenData, TokenDataView, key_position, level_of,
};
use crate::reply::{Reply, ReplyView, Status, error_reply, error_reply_view};
use crate::snapshot::{account_reply, account_reply_of, level_overflows};
use crate::text::{decimal, decimal_string};

verus! {

/// The level past which a miner cannot be raised: raising it to this one is refused.
pub const MINER_LEVEL_CAP: u8 = 19;

/// `entries` with the upgrade `key` set to `level`.
pub open spec fn set_level(entries: Seq<EntryView>, key: Seq<char>, level: u8) -> Seq<EntryView> {
    match key_position(entries, key) {
        Some(i) => entries.update(i, (key, level)),
        None => entries.push((key, level)),
    }
}

/// The miner of level `level` in the table.
pub open spec fn miner_at(config: ConfigView, level: int) -> MinerConfig {
    config.miner[decimal(level as nat)]
}

/// Raising upgrade `id` of type `kind` would stop the program: its level is 255, or,
/// for a miner not about to reach the cap, the table lacks its level or the next one,
/// or the change of tokens per hour goes below zero or past `u32::MAX` once paid for.
pub open spec fn upgrade_panics(
    data: TokenDataView,
    kind: Seq<char>,
    id: Seq<char>,
    config: ConfigView,
) -> bool {
    match level_of(data.upgrades, id) {
        None => false,
        Some(level) => {
            ||| level == 255
            ||| {
                &&& kind == "miner"@
                &&& level + 1 != MINER_LEVEL_CAP
                &&& {
                    ||| !config.miner.contains_key(decimal((level + 1) as nat))
                    ||| !config.miner.contains_key(decimal(level as nat))
                    ||| {
                        let next = miner_at(config, level + 1);
                        let now = miner_at(config, level as int);
                        &&& data.oxi_tokens_value >= next.buy_price
                        &&& (next.tokens_add < now.tokens_add || data.tokens_hour + next.tokens_add
                            - now.tokens_add > u32::MAX)
                    }
                }
            }
        },
    }
}

/// What a request to raise upgrade `id` of type `kind` by one level gives: the account
/// as raised and charged, or the reply that refuses it.
pub open spec fn upgrade_outcome(
    data: TokenDataView,
    kind: Seq<char>,
    id: Seq<char>,
    config: ConfigView,
) -> Result<TokenDataView, ReplyView> {
    match level_of(data.upgrades, id) {
        None => Err(error_reply_view(Status::BadRequest, "Upgrade not found for the user"@)),
        Some(level) => {
            let raised = level + 1;
            if kind == "miner"@ && raised == MINER_LEVEL_CAP {
                Err(error_reply_view(Status::Success, "Max level"@))
            } else if kind != "miner"@ {
                Err(error_reply_view(Status::InternalServerError, "Failed to get upgrade data"@))
            } else {
                let next = miner_at(config, raised);
                let now = miner_at(config, level as int);
                if data.oxi_tokens_value < next.buy_price {
                    Err(error_reply_view(Status::BadRequest, "Insufficient balance"@))
                } else {
                    Ok(
                        TokenDataView {
                            oxi_tokens_value: (data.oxi_tokens_value - next.buy_price) as u64,
                            tokens_hour: (data.tokens_hour + next.tokens_add
                                - now.tokens_add) as u32,
                            upgrades: set_level(data.upgrades, id, raised as u8),
                            ..data
                        },
                    )
                }
            }
        },
    }
}

/// Whether raising upgrade `id_update` of type `type_update` would stop the program.
pub fn upgrade_would_panic(data: &TokenData, type_update: &str, id_update: &str, config: &Config) -> (b: bool)
    ensures
        b == upgrade_panics(data@, type_update@, id_update@, config@),
{
    let level = match data.upgrades.get(id_update) {
        Some(level) => level,
        None => {
            return false;
        },
    };
    if level == 255 {
        return true;
    }
    let raised = level + 1;
    let is_miner = String::from_str(type_update) == String::from_str("miner");
    if !is_miner || raised == MINER_LEVEL_CAP {
        return false;
    }
    let next = match config.miner_level(decimal_string(raised as u64).as_str()) {
        Some(m) => m,
        None => {
            return true;
        },
    };
    let now = match config.miner_level(decimal_string(level as u64).as_str()) {
        Some(m) => m,
        None => {
            return true;
        },
    };
    if data.oxi_tokens_value < next.buy_price {
        return false;
    }
    next.tokens_add < now.tokens_add || (data.tokens_hour as u64) + (next.tokens_add as u64) - (
    now.tokens_add as u64) > (u32::MAX as u64)
}

/// Raises upgrade `id_update` by one level and charges the price of the new level,
/// reading prices and yields from the miner table; or says why not.
pub fn apply_upgrade(data: TokenData, type_update: &str, id_update: &str, config: &Config) -> (r: Result<TokenData, Reply>)
    requires
        !upgrade_panics(data@, type_update@, id_update@, config@),
    ensures
        match upgrade_outcome(data@, type_update@, id_update@, config@) {
            Ok(d) => r matches Ok(x) && x@ == d,
            Err(reply) => r matches Err(x) && x@ == reply,
        },
{
    let level = match data.upgrades.get(id_update) {
        Some(level) => level,
        None => {
            return Err(error_reply(Status::BadRequest, "Upgrade not found for the user"));
        },
    };
    let raised: u8 = level + 1;
    let is_miner = String::from_str(type_update) == String::from_str("miner");
    if is_miner && raised == MINER_LEVEL_CAP {
        return Err(error_reply(Status::Success, "Max level"));
    }
    if !is_miner {
        return Err(error_reply(Status::InternalServerError, "Failed to get upgrade data"));
    }
    let next = match config.miner_level(decimal_string(raised as u64).as_str()) {
        Some(m) => m,
        None => {
            return Err(error_reply(Status::InternalServerError, "Failed to get upgrade data"));
        },
    };
    let now = match config.miner_level(decimal_string(level as u64).as_str()) {
        Some(m) => m,
        None => {
            return Err(error_reply(Status::InternalServerError, "Failed to get upgrade data"));
        },
    };
    if data.oxi_tokens_value < next.buy_price {
        return Err(error_reply(Status::BadRequest, "Insufficient balance"));
    }
    let mut d = data;
    d.oxi_tokens_value = d.oxi_tokens_value - next.buy_price;
    d.tokens_hour = d.tokens_hour + (next.tokens_add - now.tokens_add);
    d.upgrades.insert(String::from_str(id_update), raised);
    Ok(d)
}

/// The reply once the raised account was written back (`replaced`) or not.
pub open spec fn update_reply(data: TokenDataView, replaced: bool, config: ConfigView) -> ReplyView {
    if replaced {
        account_reply(data, config)
    } else {
        error_reply_view(Status::InternalServerError, "Failed to update user data"@)
    }
}

/// Answers an upgrade request once the raised account was written back, or not.
pub fn finish_update(data: &TokenData, replaced: bool, config: &Config) -> (r: Reply)
    requires
        replaced ==> !level_overflows(data.upgrades@, config@),
    ensures
        r@ == update_reply(data@, replaced, config@),
{
    if replaced {
        account_reply_of(data, config)
    } else {
        error_reply(Status::InternalServerError, "Failed to update user data")
    }
}

} // verus!
