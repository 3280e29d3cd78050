use vstd::prelude::*;
use vstd::utf8::encode_utf8;
use crate::address::{parse_address, is_address_text, Address};
use crate::amount::{amount_text_value, parse_u256, Amount, Wide};

verus! {

/// One source wallet of a collection and its scaled percentage, as text.
pub struct FromWalletWithPercent {
    pub from: String,
    pub scaled_percent: String,
}

/// A collection request as received: wallets to debit and the token.
pub struct CollectErc20Payload {
    pub sets: Vec<FromWalletWithPercent>,
    pub token_address: String,
}

/// One receiver of a distribution and its proportion weight, as text.
pub struct ReceiversWithProportions {
    pub receiver: String,
    pub proportion: String,
}

/// A distribution request as received: receivers and the total amount.
pub struct DistributeBasePayload {
    pub receivers_with_proportions: Vec<ReceiversWithProportions>,
    pub amount: String,
}

/// A token distribution request: the base request and the token address.
pub struct DistributeErc20Payload {
    pub base: DistributeBasePayload,
    pub token_address: String,
}

/// What a request answers: the approval and transfer transaction ids, or an error.
pub struct AppResponse {
    pub tx_hash_approve: Option<String>,
    pub tx_hash_distribute: Option<String>,
    pub error: Option<String>,
}

/// Why a request did not complete.
pub enum FlowError {
    /// A text that is no address or no amount; it is carried along.
    MalformedInput(String),
    /// A wallet has approved less than it would be debited.
    InsufficientAllowance { wallet: Address, needed: Wide, has: Amount },
    /// A read or a transaction failed remotely; the message is carried along.
    RemoteCallFailure(String),
}

/// Whether a text is an address.
pub open spec fn is_address_str(s: Seq<char>) -> bool {
    is_address_text(encode_utf8(s))
}

/// `a` is the address that the text `s` spells out.
pub open spec fn address_parsed(a: Address, s: Seq<char>) -> bool {
    is_address_str(s) && a.denoted_by(encode_utf8(s))
}

/// `a` is the amount that the text `s` gives.
pub open spec fn amount_parsed(a: Amount, s: Seq<char>) -> bool {
    amount_text_value(s) == Some(a.value())
}

pub open spec fn is_amount_str(s: Seq<char>) -> bool {
    amount_text_value(s) is Some
}

/// A distribution's receivers, weights and total, resolved from text.
pub struct Distribution {
    pub receivers: Vec<Address>,
    pub proportions: Vec<Amount>,
    pub amount: Amount,
}

/// A collection's token, source wallets and scaled percentages, resolved from text.
pub struct Collection {
    pub token: Address,
    pub froms: Vec<Address>,
    pub scaled_percents: Vec<Amount>,
}

impl DistributeBasePayload {
    pub open spec fn is_well_formed_text(&self) -> bool {
        &&& forall|i: int|
            0 <= i < self.receivers_with_proportions@.len() ==> is_address_str(
                #[trigger] self.receivers_with_proportions@[i].receiver@,
            )
        &&& forall|i: int|
            0 <= i < self.receivers_with_proportions@.len() ==> is_amount_str(
                #[trigger] self.receivers_with_proportions@[i].proportion@,
            )
        &&& is_amount_str(self.amount@)
    }
}

impl CollectErc20Payload {
    pub open spec fn is_well_formed_text(&self) -> bool {
        &&& is_address_str(self.token_address@)
        &&& forall|i: int|
            0 <= i < self.sets@.len() ==> is_address_str(#[trigger] self.sets@[i].from@)
        &&& forall|i: int|
            0 <= i < self.sets@.len() ==> is_amount_str(#[trigger] self.sets@[i].scaled_percent@)
    }
}

impl Distribution {
    pub open spec fn parsed_from(&self, p: &DistributeBasePayload) -> bool {
        let rs = p.receivers_with_proportions@;
        &&& self.receivers@.len() == rs.len()
        &&& self.proportions@.len() == rs.len()
        &&& forall|i: int|
            0 <= i < rs.len() ==> address_parsed(#[trigger] self.receivers@[i], rs[i].receiver@)
        &&& forall|i: int|
            0 <= i < rs.len() ==> amount_parsed(#[trigger] self.proportions@[i], rs[i].proportion@)
        &&& amount_parsed(self.amount, p.amount@)
    }
}

impl Collection {
    pub open spec fn parsed_from(&self, p: &CollectErc20Payload) -> bool {
        let ss = p.sets@;
        &&& address_parsed(self.token, p.token_address@)
        &&& self.froms@.len() == ss.len()
        &&& self.scaled_percents@.len() == ss.len()
        &&& forall|i: int| 0 <= i < ss.len() ==> address_parsed(#[trigger] self.froms@[i], ss[i].from@)
        &&& forall|i: int|
            0 <= i < ss.len() ==> amount_parsed(#[trigger] self.scaled_percents@[i], ss[i].scaled_percent@)
    }
}

/// Parses an address text, or names it as malformed.
pub fn address_field(s: &String) -> (r: Result<Address, FlowError>)
    ensures
        r is Ok <==> is_address_str(s@),
        r matches Ok(a) ==> address_parsed(a, s@),
        r matches Err(e) ==> e is MalformedInput,
{
    match parse_address(s.as_str()) {
        Some(a) => Ok(a),
        None => Err(FlowError::MalformedInput(s.clone())),
    }
}

/// Parses an amount text, or names it as malformed.
pub fn amount_field(s: &String) -> (r: Result<Amount, FlowError>)
    ensures
        r is Ok <==> is_amount_str(s@),
        r matches Ok(a) ==> amount_parsed(a, s@),
        r matches Err(e) ==> e is MalformedInput,
{
    match parse_u256(s.as_str()) {
        Some(a) => Ok(a),
        None => Err(FlowError::MalformedInput(s.clone())),
    }
}

/// Resolves a distribution request; any malformed text makes it fail.
pub fn parse_distribution(p: &DistributeBasePayload) -> (r: Result<Distribution, FlowError>)
    ensures
        r is Ok <==> p.is_well_formed_text(),
        r matches Ok(d) ==> d.parsed_from(p),
        r matches Err(e) ==> e is MalformedInput,
{
    let rs = &p.receivers_with_proportions;
    let mut receivers: Vec<Address> = Vec::new();
    let mut proportions: Vec<Amount> = Vec::new();
    let mut i: usize = 0;
    while i < rs.len()
        invariant
            0 <= i <= rs@.len(),
            rs@ == p.receivers_with_proportions@,
            receivers@.len() == i,
            proportions@.len() == i,
            forall|k: int| 0 <= k < i ==> is_address_str(#[trigger] rs@[k].receiver@),
            forall|k: int| 0 <= k < i ==> is_amount_str(#[trigger] rs@[k].proportion@),
            forall|k: int| 0 <= k < i ==> address_parsed(#[trigger] receivers@[k], rs@[k].receiver@),
            forall|k: int|
                0 <= k < i ==> amount_parsed(#[trigger] proportions@[k], rs@[k].proportion@),
        decreases rs@.len() - i,
    {
        let a = address_field(&rs[i].receiver)?;
        let w = amount_field(&rs[i].proportion)?;
        receivers.push(a);
        proportions.push(w);
        i = i + 1;
    }
    let amount = amount_field(&p.amount)?;
    Ok(Distribution { receivers, proportions, amount })
}

/// Resolves a collection request; any malformed text makes it fail.
pub fn parse_collection(p: &CollectErc20Payload) -> (r: Result<Collection, FlowError>)
    ensures
        r is Ok <==> p.is_well_formed_text(),
        r matches Ok(c) ==> c.parsed_from(p),
        r matches Err(e) ==> e is MalformedInput,
{
    let token = address_field(&p.token_address)?;
    let ss = &p.sets;
    let mut froms: Vec<Address> = Vec::new();
    let mut scaled_percents: Vec<Amount> = Vec::new();
    let mut i: usize = 0;
    while i < ss.len()
        invariant
            0 <= i <= ss@.len(),
            ss@ == p.sets@,
            is_address_str(p.token_address@),
            froms@.len() == i,
            scaled_percents@.len() == i,
            forall|k: int| 0 <= k < i ==> is_address_str(#[trigger] ss@[k].from@),
            forall|k: int| 0 <= k < i ==> is_amount_str(#[trigger] ss@[k].scaled_percent@),
            forall|k: int| 0 <= k < i ==> address_parsed(#[trigger] froms@[k], ss@[k].from@),
            forall|k: int|
                0 <= k < i ==> amount_parsed(#[trigger] scaled_percents@[k], ss@[k].scaled_percent@),
        decreases ss@.len() - i,
    {
        let a = address_field(&ss[i].from)?;
        let w = amount_field(&ss[i].scaled_percent)?;
        froms.push(a);
        scaled_percents.push(w);
        i = i + 1;
    }
    Ok(Collection { token, froms, scaled_percents })
}

} // verus!
