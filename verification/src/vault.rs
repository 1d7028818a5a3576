use vstd::prelude::*;
use crate::account::{Lookup, LookupView};
use crate::game::{Config, ConfigView, Timestamp, TokenData, TokenDataView};
use crate::reply::{Reply, ReplyView, Status, error_reply, error_reply_view};
use crate::snapshot::{account_reply, account_reply_of, level_overflows};

verus! {

/// The most tokens a vault holds between two claims.
pub const VAULT_SIZE: u64 = 5000;

/// Why the tokens waiting in a vault could not be read.
#[derive(Clone, Copy, Debug, PartialEq, Eq, Structural)]
pub enum UpdateError {
    DatabaseError,
    NotFound,
}

/// The tokens waiting in the vault: those mined since the last claim, at most `VAULT_SIZE`.
pub open spec fn vault_tokens(accrued: u64) -> u64 {
    if accrued > VAULT_SIZE {
        VAULT_SIZE
    } else {
        accrued
    }
}

/// The tokens waiting in an account's vault, given the account's lookup and the tokens
/// `accrued` that its miners produced since its last claim.
pub fn update_tokens_value_vault(found: &Lookup, accrued: u64) -> (r: Result<u64, UpdateError>)
    ensures
        match found@ {
            LookupView::Found(_) => r == Ok::<u64, UpdateError>(vault_tokens(accrued)),
            LookupView::Missing => r == Err::<u64, UpdateError>(UpdateError::NotFound),
            LookupView::Failed => r == Err::<u64, UpdateError>(UpdateError::DatabaseError),
        },
{
    match found {
        Lookup::Found(_) => {
            let vault_size: u64 = VAULT_SIZE;
            if accrued > vault_size {
                Ok(vault_size)
            } else {
                Ok(accrued)
            }
        },
        Lookup::Missing => Err(UpdateError::NotFound),
        Lookup::Failed => Err(UpdateError::DatabaseError),
    }
}

/// The account with `tokens` more on its balance.
pub open spec fn credited(data: TokenDataView, tokens: u64) -> TokenDataView {
    TokenDataView { oxi_tokens_value: (data.oxi_tokens_value + tokens) as u64, ..data }
}

/// Adds the vault's tokens to the balance; `500` "Failed to update token values"
/// where the vault could not be read.
pub fn credit_claim(data: TokenData, vault: Result<u64, UpdateError>) -> (r: Result<TokenData, Reply>)
    requires
        vault matches Ok(t) ==> data.oxi_tokens_value + t <= u64::MAX,
    ensures
        match vault {
            Ok(t) => r matches Ok(d) && d@ == credited(data@, t),
            Err(_) => r matches Err(reply) && reply@ == error_reply_view(
                Status::InternalServerError,
                "Failed to update token values"@,
            ),
        },
{
    match vault {
        Ok(t) => {
            let mut d = data;
            d.oxi_tokens_value = d.oxi_tokens_value + t;
            Ok(d)
        },
        Err(_) => Err(error_reply(Status::InternalServerError, "Failed to update token values")),
    }
}

/// The account stamped as claimed at `now`.
pub open spec fn stamped(data: TokenDataView, now: Timestamp) -> TokenDataView {
    TokenDataView { last_time_update: now, ..data }
}

/// Records the time of the claim; `500` "Failed to get current time" where the clock failed.
pub fn stamp_claim(data: TokenData, clock: Option<Timestamp>) -> (r: Result<TokenData, Reply>)
    ensures
        match clock {
            Some(now) => r matches Ok(d) && d@ == stamped(data@, now),
            None => r matches Err(reply) && reply@ == error_reply_view(
                Status::InternalServerError,
                "Failed to get current time"@,
            ),
        },
{
    match clock {
        Some(now) => {
            let mut d = data;
            d.last_time_update = now;
            Ok(d)
        },
        None => Err(error_reply(Status::InternalServerError, "Failed to get current time")),
    }
}

/// The reply once the claimed account was written back (`replaced`) or not.
pub open spec fn claim_reply(data: TokenDataView, replaced: bool, config: ConfigView) -> ReplyView {
    if replaced {
        account_reply(data, config)
    } else {
        error_reply_view(Status::InternalServerError, "Failed to replace data in database"@)
    }
}

/// Answers a claim once the account was written back, or not.
pub fn finish_claim(data: &TokenData, replaced: bool, config: &Config) -> (r: Reply)
    requires
        replaced ==> !level_overflows(data.upgrades@, config@),
    ensures
        r@ == claim_reply(data@, replaced, config@),
{
    if replaced {
        account_reply_of(data, config)
    } else {
        error_reply(Status::InternalServerError, "Failed to replace data in database")
    }
}

} // verus!
