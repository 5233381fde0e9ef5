//! The loader: from a query to the address to ask, and from what came back
//! to the state of the result slot.
//!
//! The slot starts as `Pending`. When the one request of an activation
//! settles, the slot becomes `Ready` with the decoded records or `Failed`
//! with a description, and stays so: nothing retries or refreshes it.

use crate::decimal::{decimal, decimal_text};
use crate::decode::{decode_body, envelope_of};
use crate::json::{json_parse, Json};
use crate::record::{Amiibo, Record};
use vstd::prelude::*;

verus! {

/// The endpoint of the list, up to the place where the query goes.
pub const ENDPOINT: &'static str = "https://www.amiiboapi.com/api/amiibo/?name=";

/// The address that a query is sent to: the endpoint with the query behind
/// it, as it stands.
pub open spec fn url_for(query: Seq<char>) -> Seq<char> {
    ENDPOINT@ + query
}

/// Whether a status code lies in the success class, 200 to 299.
pub open spec fn status_is_success(status: u16) -> bool {
    200 <= status <= 299
}

/// What came back from the one request, as a mathematical value.
pub enum ReplyView {
    Unreachable { reason: Seq<char> },
    Answer { status: u16, body: Seq<char> },
}

/// What came back from the one request: either the transport gave up, with
/// its reason, or the server answered with a status and a body.
#[derive(Clone, Debug, PartialEq, Eq)]
pub enum Reply {
    Unreachable { reason: String },
    Answer { status: u16, body: String },
}

impl View for Reply {
    type V = ReplyView;

    open spec fn view(&self) -> ReplyView {
        match self {
            Reply::Unreachable { reason } => ReplyView::Unreachable { reason: reason@ },
            Reply::Answer { status, body } => ReplyView::Answer { status: *status, body: body@ },
        }
    }
}

/// Why a load failed, as a mathematical value.
pub enum Fault {
    Transport { reason: Seq<char> },
    Status { code: u16 },
    Decode,
}

/// Why a load failed: the request never got an answer, the answer had an
/// unsuccessful status, or its body could not be decoded.
#[derive(Clone, Debug, PartialEq, Eq)]
pub enum FetchError {
    Transport { reason: String },
    Status { code: u16 },
    Decode,
}

impl View for FetchError {
    type V = Fault;

    open spec fn view(&self) -> Fault {
        match self {
            FetchError::Transport { reason } => Fault::Transport { reason: reason@ },
            FetchError::Status { code } => Fault::Status { code: *code },
            FetchError::Decode => Fault::Decode,
        }
    }
}

/// The state of the result slot, as a mathematical value.
pub enum FetchState {
    Pending,
    Ready(Seq<Record>),
    Failed(Seq<char>),
}

/// The state of the result slot.
#[derive(Clone, Debug, PartialEq, Eq)]
pub enum FetchResult {
    Pending,
    Ready(Vec<Amiibo>),
    Failed(String),
}

impl View for FetchResult {
    type V = FetchState;

    open spec fn view(&self) -> FetchState {
        match self {
            FetchResult::Pending => FetchState::Pending,
            FetchResult::Ready(records) => FetchState::Ready(records.deep_view()),
            FetchResult::Failed(description) => FetchState::Failed(description@),
        }
    }
}

/// The records of an answer with status `status` whose body parsed to
/// `parsed`, or the fault that the answer shows.
pub open spec fn answer_records(status: u16, parsed: Option<Json>) -> Result<Seq<Record>, Fault> {
    if !status_is_success(status) {
        Err(Fault::Status { code: status })
    } else {
        match parsed {
            Some(document) => match envelope_of(document) {
                Some(records) => Ok(records),
                None => Err(Fault::Decode),
            },
            None => Err(Fault::Decode),
        }
    }
}

/// The records that a reply carries, or the fault that it shows.
pub open spec fn reply_records(reply: ReplyView) -> Result<Seq<Record>, Fault> {
    match reply {
        ReplyView::Unreachable { reason } => Err(Fault::Transport { reason }),
        ReplyView::Answer { status, body } => answer_records(status, json_parse(body)),
    }
}

/// The text that describes a fault.
pub open spec fn description(fault: Fault) -> Seq<char> {
    match fault {
        Fault::Transport { reason } => "transport error: "@ + reason,
        Fault::Status { code } => "unsuccessful status: "@ + decimal(code as nat),
        Fault::Decode => "malformed body"@,
    }
}

/// The state that a slot takes when what was fetched is known.
pub open spec fn settled(fetched: Result<Seq<Record>, Fault>) -> FetchState {
    match fetched {
        Ok(records) => FetchState::Ready(records),
        Err(fault) => FetchState::Failed(description(fault)),
    }
}

/// The state that a reply leaves a pending slot in.
pub open spec fn outcome(reply: ReplyView) -> FetchState {
    settled(reply_records(reply))
}

/// Builds the address for `query`. The query is not checked or escaped.
pub fn request_url(query: &str) -> (r: String)
    ensures
        r@ == url_for(query@),
{
    String::from_str(ENDPOINT).concat(query)
}

/// Tells whether `status` is a success status.
pub fn is_success(status: u16) -> (r: bool)
    ensures
        r == status_is_success(status),
{
    200 <= status && status <= 299
}

impl FetchError {
    /// Describes the fault in words.
    pub fn describe(&self) -> (r: String)
        ensures
            r@ == description(self@),
    {
        match self {
            FetchError::Transport { reason } => String::from_str("transport error: ").concat(
                reason.as_str(),
            ),
            FetchError::Status { code } => {
                let digits = decimal_text(*code);
                String::from_str("unsuccessful status: ").concat(digits.as_str())
            },
            FetchError::Decode => String::from_str("malformed body"),
        }
    }
}

/// Reads a reply: the records it carries, or why there are none.
pub fn read_reply(reply: &Reply) -> (r: Result<Vec<Amiibo>, FetchError>)
    ensures
        match r {
            Ok(records) => reply_records(reply@) == Ok::<Seq<Record>, Fault>(records.deep_view()),
            Err(error) => reply_records(reply@) == Err::<Seq<Record>, Fault>(error@),
        },
{
    match reply {
        Reply::Unreachable { reason } => Err(FetchError::Transport { reason: reason.clone() }),
        Reply::Answer { status, body } => {
            if !is_success(*status) {
                Err(FetchError::Status { code: *status })
            } else {
                match decode_body(body.as_str()) {
                    Some(data) => Ok(data.into_records()),
                    None => Err(FetchError::Decode),
                }
            }
        },
    }
}

/// The state that `reply` leaves a pending slot in: `Ready` with the
/// records of a successful, well-formed answer, `Failed` with the
/// description of the fault otherwise. Never `Pending`.
pub fn conclude(reply: &Reply) -> (r: FetchResult)
    ensures
        r@ == outcome(reply@),
        !(r@ is Pending),
{
    match read_reply(reply) {
        Ok(records) => FetchResult::Ready(records),
        Err(error) => FetchResult::Failed(error.describe()),
    }
}

/// Loads the list for `query` through `transport`, which is handed the
/// address and gives back what came of the request. The transport is
/// called once, with the address for `query`, and the result is the outcome
/// of what it returned.
pub fn load<F>(query: &str, transport: F) -> (r: FetchResult) where F: FnOnce(&str) -> Reply
    requires
        forall|url: &str| url@ == url_for(query@) ==> call_requires(transport, (url,)),
    ensures
        exists|url: &str, reply: Reply|
            url@ == url_for(query@) && call_ensures(transport, (url,), reply) && r@ == outcome(
                reply@,
            ),
        !(r@ is Pending),
{
    let url = request_url(query);
    let reply = transport(url.as_str());
    conclude(&reply)
}

impl FetchResult {
    /// The state of a slot before anything has come back.
    pub fn pending() -> (r: FetchResult)
        ensures
            r@ is Pending,
    {
        FetchResult::Pending
    }

    /// Tells whether the slot still waits for its reply.
    pub fn is_pending(&self) -> (r: bool)
        ensures
            r == (self@ is Pending),
    {
        match self {
            FetchResult::Pending => true,
            _ => false,
        }
    }

    /// Hands the slot the reply. A pending slot takes the reply's outcome;
    /// a slot that has settled keeps what it holds.
    pub fn settle(&mut self, reply: &Reply)
        ensures
            old(self)@ is Pending ==> final(self)@ == outcome(reply@),
            !(old(self)@ is Pending) ==> final(self)@ == old(self)@,
            !(final(self)@ is Pending),
    {
        if self.is_pending() {
            *self = conclude(reply);
        }
    }
}

} // verus!
