//! The message surface of the core: inbound commands and queries, the
//! values the host hands in with a call, and the values handed back.

use vstd::prelude::*;

use crate::state::Config;

verus! {

/// A quantity of one denomination, as attached to an inbound call or named
/// in an outgoing payment instruction.
#[derive(Debug)]
pub struct Coin {
    pub denom: String,
    pub amount: u128,
}

/// What the host reports about an inbound call: the pre-verified caller
/// identity and the payment attached to the call.
pub struct MessageInfo {
    pub sender: String,
    pub funds: Vec<Coin>,
}

/// One coin value.
pub fn coin(amount: u128, denom: &str) -> (c: Coin)
    ensures
        c.denom@ == denom@,
        c.amount == amount,
{
    Coin { denom: denom.to_owned(), amount }
}

/// A one-element coin list, the common shape of attached payments.
pub fn coins(amount: u128, denom: &str) -> (v: Vec<Coin>)
    ensures
        v@.len() == 1,
        v@[0].denom@ == denom@,
        v@[0].amount == amount,
{
    let mut v: Vec<Coin> = Vec::new();
    v.push(coin(amount, denom));
    v
}

/// An outgoing payment instruction for the host to execute: the core never
/// moves value itself.
#[derive(Debug)]
pub enum BankMsg {
    Send { to_address: String, amount: Vec<Coin> },
}

/// A key-value annotation attached to a successful result.
#[derive(Debug)]
pub struct Attribute {
    pub key: String,
    pub value: String,
}

/// The result of a successful mutating call: the payment instructions the
/// host must execute and the annotations describing the action.
#[derive(Debug)]
pub struct Response {
    pub messages: Vec<BankMsg>,
    pub attributes: Vec<Attribute>,
}

impl Response {
    /// An empty result: nothing to pay, nothing to annotate.
    pub fn new() -> (r: Response)
        ensures
            r.messages@.len() == 0,
            r.attributes@.len() == 0,
    {
        Response { messages: Vec::new(), attributes: Vec::new() }
    }

    /// Append one payment instruction.
    pub fn add_message(self, msg: BankMsg) -> (r: Response)
        ensures
            r.messages@ == self.messages@.push(msg),
            r.attributes@ == self.attributes@,
    {
        let mut out = self;
        out.messages.push(msg);
        out
    }

    /// Append one annotation.
    pub fn add_attribute(self, key: &str, value: &str) -> (r: Response)
        ensures
            r.messages@ == self.messages@,
            r.attributes@.len() == self.attributes@.len() + 1,
            forall|i: int|
                0 <= i < self.attributes@.len() ==> r.attributes@[i] == self.attributes@[i],
            r.attributes@.last().key@ == key@,
            r.attributes@.last().value@ == value@,
    {
        let mut out = self;
        out.attributes.push(Attribute { key: key.to_owned(), value: value.to_owned() });
        out
    }
}

impl Default for Response {
    /// Same as `Response::new`: an empty result.
    fn default() -> (r: Response)
        ensures
            r.messages@.len() == 0,
            r.attributes@.len() == 0,
    {
        Response::new()
    }
}

/// The initialization call carries no data beyond the caller identity.
pub struct InstantiateMsg {}

/// Marker for the owner query.
pub struct GetOwner {}

/// The two mutating commands.
pub enum ExecuteMsg {
    Transfer { address1: String, address2: String, amount: u128 },
    Withdraw { amount: u128 },
}

/// The three read-only queries.
pub enum QueryMsg {
    Config {},
    GetOwner {},
    GetBalance { address: String },
}

/// Answer to the `Config` query: the full configuration record.
#[derive(Debug, PartialEq)]
pub struct ConfigResponse {
    pub owner: String,
}

impl ConfigResponse {
    /// The owner named by this answer.
    pub open spec fn spec_owner(&self) -> Seq<char> {
        self.owner@
    }
}

impl From<Config> for ConfigResponse {
    fn from(config: Config) -> (r: ConfigResponse) {
        ConfigResponse { owner: config.owner }
    }
}

impl vstd::std_specs::convert::FromSpecImpl<Config> for ConfigResponse {
    open spec fn obeys_from_spec() -> bool {
        true
    }

    open spec fn from_spec(config: Config) -> ConfigResponse {
        ConfigResponse { owner: config.owner }
    }
}

/// Answer to the `GetOwner` query: the owner's identity as a string.
#[derive(Debug)]
pub struct GetOwnerResponse {
    pub address: String,
}

/// Answer to the `GetBalance` query: the principal's balance, zero when no
/// record exists.
#[derive(Debug)]
pub struct GetBalanceResponse {
    pub balance: u128,
}

/// Answer to a query, tagged by the query it answers.
#[derive(Debug)]
pub enum QueryResponse {
    Config(ConfigResponse),
    GetOwner(GetOwnerResponse),
    GetBalance(GetBalanceResponse),
}

} // verus!
