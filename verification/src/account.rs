use vstd::prelude::*;
use crate::game::{Config, TokenData, TokenDataView};
use crate::reply::{Reply, ReplyView, Status, error_reply, error_reply_view};
use crate::snapshot::{account_reply, account_reply_of, level_overflows};

verus! {

/// What looking an account up in the store gave.
pub enum Lookup {
    Found(TokenData),
    Missing,
    Failed,
}

pub enum LookupView {
    Found(TokenDataView),
    Missing,
    Failed,
}

impl View for Lookup {
    type V = LookupView;

    open spec fn view(&self) -> LookupView {
        match self {
            Lookup::Found(d) => LookupView::Found(d@),
            Lookup::Missing => LookupView::Missing,
            Lookup::Failed => LookupView::Failed,
        }
    }
}

/// The reply to a lookup that found no account: `404` "User not found" when there is
/// none, `500` "Database query failed" when the store failed.
pub open spec fn lookup_failure(found: LookupView) -> ReplyView {
    match found {
        LookupView::Missing => error_reply_view(Status::NotFound, "User not found"@),
        _ => error_reply_view(Status::InternalServerError, "Database query failed"@),
    }
}

/// The account that a lookup found, or the reply to send when it found none.
pub fn user_or_reply(found: Lookup) -> (r: Result<TokenData, Reply>)
    ensures
        match found@ {
            LookupView::Found(d) => r matches Ok(x) && x@ == d,
            _ => r matches Err(reply) && reply@ == lookup_failure(found@),
        },
{
    match found {
        Lookup::Found(d) => Ok(d),
        Lookup::Missing => Err(error_reply(Status::NotFound, "User not found")),
        Lookup::Failed => Err(error_reply(Status::InternalServerError, "Database query failed")),
    }
}

/// The reply to a request for an account's data, given what its lookup gave.
pub open spec fn data_reply(found: LookupView, config: crate::game::ConfigView) -> ReplyView {
    match found {
        LookupView::Found(d) => account_reply(d, config),
        _ => lookup_failure(found),
    }
}

/// Answers a request for an account's data: the account with its upgrades, or why not.
pub fn get_data(found: Lookup, config: &Config) -> (r: Reply)
    requires
        found matches Lookup::Found(d) ==> !level_overflows(d.upgrades@, config@),
    ensures
        r@ == data_reply(found@, config@),
{
    match user_or_reply(found) {
        Ok(d) => account_reply_of(&d, config),
        Err(reply) => reply,
    }
}

} // verus!
