use vstd::prelude::*;
use vstd::string::*;
use crate::game::Timestamp;

verus! {

/// The body of a refused or failed request.
pub struct ErrorResponse {
    pub error: String,
}

/// The body of a request that succeeded with nothing to return.
pub struct SuccessResponse {
    pub msg: String,
}

/// Builds an error body holding `message`.
pub fn create_error_response(message: &str) -> (r: ErrorResponse)
    ensures
        r.error@ == message@,
{
    ErrorResponse { error: String::from_str(message) }
}

/// Builds a success body holding `message`.
pub fn create_success_response(message: &str) -> (r: SuccessResponse)
    ensures
        r.msg@ == message@,
{
    SuccessResponse { msg: String::from_str(message) }
}

/// One named value of an upgrade's description, such as its level.
pub struct Field {
    pub name: String,
    pub value: String,
}

/// The description of one upgrade: its name and its named values.
pub struct Card {
    pub key: String,
    pub fields: Vec<Field>,
}

pub type FieldView = (Seq<char>, Seq<char>);

pub type CardView = (Seq<char>, Seq<FieldView>);

pub open spec fn field_view(f: Field) -> FieldView {
    (f.name@, f.value@)
}

pub open spec fn card_view(c: Card) -> CardView {
    (c.key@, c.fields@.map_values(|f: Field| field_view(f)))
}

pub open spec fn cards_view(cards: Seq<Card>) -> Seq<CardView> {
    cards.map_values(|c: Card| card_view(c))
}

pub open spec fn opt_cards_view(cards: Option<Vec<Card>>) -> Option<Seq<CardView>> {
    match cards {
        Some(c) => Some(cards_view(c@)),
        None => None,
    }
}

pub open spec fn opt_string_view(s: Option<String>) -> Option<Seq<char>> {
    match s {
        Some(s) => Some(s@),
        None => None,
    }
}

pub open spec fn strings_view(v: Seq<String>) -> Seq<Seq<char>> {
    v.map_values(|s: String| s@)
}

/// What an account's owner is shown: the account, its upgrades now and what their
/// next levels would bring, and how many players it has brought in.
pub struct MainResponse {
    pub _id: String,
    pub username: Option<String>,
    pub first_name: Option<String>,
    pub last_name: Option<String>,
    pub upgrades_current: Option<Vec<Card>>,
    pub upgrades_new: Option<Vec<Card>>,
    pub oxi_tokens_value: u64,
    pub last_time_update: Timestamp,
    pub tokens_hour: u32,
    pub referal_code: String,
    pub referals: Vec<String>,
    pub referals_value: String,
}

pub struct MainResponseView {
    pub id: Seq<char>,
    pub username: Option<Seq<char>>,
    pub first_name: Option<Seq<char>>,
    pub last_name: Option<Seq<char>>,
    pub upgrades_current: Option<Seq<CardView>>,
    pub upgrades_new: Option<Seq<CardView>>,
    pub oxi_tokens_value: u64,
    pub last_time_update: Timestamp,
    pub tokens_hour: u32,
    pub referal_code: Seq<char>,
    pub referals: Seq<Seq<char>>,
    pub referals_value: Seq<char>,
}

impl View for MainResponse {
    type V = MainResponseView;

    open spec fn view(&self) -> MainResponseView {
        MainResponseView {
            id: self._id@,
            username: opt_string_view(self.username),
            first_name: opt_string_view(self.first_name),
            last_name: opt_string_view(self.last_name),
            upgrades_current: opt_cards_view(self.upgrades_current),
            upgrades_new: opt_cards_view(self.upgrades_new),
            oxi_tokens_value: self.oxi_tokens_value,
            last_time_update: self.last_time_update,
            tokens_hour: self.tokens_hour,
            referal_code: self.referal_code@,
            referals: strings_view(self.referals@),
            referals_value: self.referals_value@,
        }
    }
}

/// The HTTP status of a reply.
#[derive(Clone, Copy, Debug, PartialEq, Eq, Structural)]
pub enum Status {
    Success,
    BadRequest,
    NotFound,
    InternalServerError,
}

/// The JSON body of a reply.
pub enum Body {
    Error(ErrorResponse),
    Success(SuccessResponse),
    Data(MainResponse),
}

/// A reply to a request: its status and its body.
pub struct Reply {
    pub status: Status,
    pub body: Body,
}

pub enum BodyView {
    Error(Seq<char>),
    Success(Seq<char>),
    Data(MainResponseView),
}

pub struct ReplyView {
    pub status: Status,
    pub body: BodyView,
}

impl View for Reply {
    type V = ReplyView;

    open spec fn view(&self) -> ReplyView {
        ReplyView {
            status: self.status,
            body: match self.body {
                Body::Error(e) => BodyView::Error(e.error@),
                Body::Success(s) => BodyView::Success(s.msg@),
                Body::Data(d) => BodyView::Data(d@),
            },
        }
    }
}

/// A reply with status `status` whose body is the error `message`.
pub open spec fn error_reply_view(status: Status, message: Seq<char>) -> ReplyView {
    ReplyView { status, body: BodyView::Error(message) }
}

/// Replies with status `status` and the error `message`.
pub fn error_reply(status: Status, message: &str) -> (r: Reply)
    ensures
        r@ == error_reply_view(status, message@),
{
    Reply { status, body: Body::Error(create_error_response(message)) }
}

/// Replies `200 OK` with the success message `message`.
pub fn success_reply(message: &str) -> (r: Reply)
    ensures
        r@ == (ReplyView { status: Status::Success, body: BodyView::Success(message@) }),
{
    Reply { status: Status::Success, body: Body::Success(create_success_response(message)) }
}

} // verus!
