use crate::text::{
    decimal, digits_value, is_u64_text, json_string, parse_u64, push_decimal, push_json_string,
    push_str, unsigned_digits,
};
use crate::utils::{MultisendInstruction, AMOUNT_SCALE};
use crate::Error;
use vstd::prelude::*;

verus! {

/// Whether `PublicKey::from_account` accepts the text.
pub uninterp spec fn terra_address_parses(s: Seq<char>) -> bool;

/// Accepted Terra addresses: `PublicKey::from_account` takes only text of exactly 44 bytes, so it
/// refuses empty text and text of more than 44 characters.
pub open spec fn terra_address_ok(s: Seq<char>) -> bool {
    0 < s.len() <= 44 && terra_address_parses(s)
}

/// Relies on terra_rust_api's `PublicKey::from_account`: bech32 text with the prefix `terra`,
/// exactly 44 bytes long.
#[verifier::external_body]
pub(crate) fn is_terra_account(s: &str) -> (r: bool)
    ensures
        r == (0 < s@.len() <= 44 && terra_address_parses(s@)),
{
    terra_rust_api::PublicKey::from_account(s).is_ok()
}

/// Base units (micro-units) per whole coin.
pub const TERRA_DECIMAL: u64 = 1_000_000;

/// An amount in billionths of a coin, in micro-units, rounded down.
pub open spec fn micro_units_of(amount: u64) -> nat {
    (amount / (AMOUNT_SCALE / TERRA_DECIMAL)) as nat
}

pub fn to_micro_units(amount: u64) -> (r: u64)
    ensures
        r == micro_units_of(amount),
{
    amount / (AMOUNT_SCALE / TERRA_DECIMAL)
}

#[verifier::external_type_specification]
#[verifier::external_body]
pub struct ExMessage(terra_rust_api::Message);

#[verifier::external_type_specification]
#[verifier::external_body]
pub struct ExPublicKey(terra_rust_api::PublicKey);

#[verifier::external_type_specification]
#[verifier::external_body]
pub struct ExTerraRustAPIError(terra_rust_api::errors::TerraRustAPIError);

/// Whether `serde_json::from_str` reads the text as a JSON value.
pub uninterp spec fn json_parses(s: Seq<char>) -> bool;

/// The contract call from `sender` to `contract` that carries the JSON message `msg_json` and no
/// coins.
pub uninterp spec fn contract_call(
    sender: Seq<char>,
    contract: Seq<char>,
    msg_json: Seq<char>,
) -> terra_rust_api::Message;

/// Relies on terra_rust_api's `MsgExecuteContract::create_from_json`: it parses the message text
/// with `serde_json::from_str`, fails only when that fails, and otherwise builds the contract call
/// from `sender` to `contract` with the parsed message and no coins attached.
#[verifier::external_body]
fn execute_contract(sender: &str, contract: &str, msg_json: &str) -> (r: Result<
    terra_rust_api::Message,
    terra_rust_api::errors::TerraRustAPIError,
>)
    ensures
        r is Ok <==> json_parses(msg_json@),
        r is Ok ==> r->Ok_0 == contract_call(sender@, contract@, msg_json@),
{
    terra_rust_api::MsgExecuteContract::create_from_json(sender, contract, msg_json, &[])
}

/// The bech32 account address that `PublicKey::account` gives for the key, if it gives one.
pub uninterp spec fn account_address(key: terra_rust_api::PublicKey) -> Option<Seq<char>>;

/// Relies on terra_rust_api's `PublicKey::account`: the key's bech32 account address, which
/// depends on the key alone.
#[verifier::external_body]
fn account_of(key: &terra_rust_api::PublicKey) -> (r: Result<
    String,
    terra_rust_api::errors::TerraRustAPIError,
>)
    ensures
        r is Ok <==> account_address(*key) is Some,
        r is Ok ==> account_address(*key) == Some(r->Ok_0@),
{
    key.account()
}

/// The base64 text of the UTF-8 bytes of `s`.
pub uninterp spec fn base64_of(s: Seq<char>) -> Seq<char>;

/// Relies on `base64::encode`: standard alphabet with padding, nothing for empty input.
#[verifier::external_body]
fn base64_encode(s: &str) -> (r: String)
    ensures
        r@ == base64_of(s@),
        s@.len() == 0 ==> r@.len() == 0,
{
    base64::encode(s)
}

/// A call of a token contract.
pub enum ExecuteMsg {
    /// Moves `amount` base units of the token to `recipient`.
    Transfer { amount: String, recipient: String },
}

impl ExecuteMsg {
    /// The JSON text of the call.
    pub open spec fn json_text(&self) -> Seq<char> {
        match self {
            ExecuteMsg::Transfer { amount, recipient } => "{\"transfer\":{\"amount\":"@
                + json_string(amount@) + ",\"recipient\":"@ + json_string(recipient@) + "}}"@,
        }
    }

    pub fn to_json(&self) -> (r: String)
        ensures
            r@ == self.json_text(),
    {
        let mut out = String::new();
        match self {
            ExecuteMsg::Transfer { amount, recipient } => {
                push_str(&mut out, "{\"transfer\":{\"amount\":");
                push_json_string(&mut out, amount.as_str());
                push_str(&mut out, ",\"recipient\":");
                push_json_string(&mut out, recipient.as_str());
                push_str(&mut out, "}}");
            },
        }
        proof {
            reveal_strlit("{\"transfer\":{\"amount\":");
            reveal_strlit(",\"recipient\":");
            reveal_strlit("}}");
        }
        assert(out@ =~= self.json_text());
        out
    }

    /// A transfer of `amount` base units to `recipient`.
    pub fn transfer(amount: u64, recipient: &str) -> (r: ExecuteMsg)
        ensures
            r matches ExecuteMsg::Transfer { amount: a, recipient: to } && a@ == decimal(
                amount as nat,
            ) && to@ == recipient@,
    {
        let mut amount_text = String::new();
        push_decimal(&mut amount_text, amount);
        ExecuteMsg::Transfer { amount: amount_text, recipient: recipient.to_owned() }
    }

    /// The message that moves `amount` base units of the token at `contract` from
    /// `from_address` to `to_address`.
    pub fn create_transfer(amount: u64, from_address: &str, to_address: &str, contract: &str) -> (r:
        Result<terra_rust_api::Message, Error>)
        ensures
            r is Ok <==> json_parses(transfer_json(amount, to_address@)),
            r is Ok ==> r->Ok_0 == contract_call(
                from_address@,
                contract@,
                transfer_json(amount, to_address@),
            ),
            r is Err ==> refused_transfer(r->Err_0),
    {
        let transfer = ExecuteMsg::transfer(amount, to_address);
        let json = transfer.to_json();
        assert(json@ == transfer_json(amount, to_address@));
        match execute_contract(from_address, contract, json.as_str()) {
            Ok(m) => Ok(m),
            Err(_) => Err(Error::InvalidConfig("transfer message refused".to_owned())),
        }
    }
}

/// The error given when the transfer message is refused.
pub open spec fn refused_transfer(e: Error) -> bool {
    e matches Error::InvalidConfig(m) && m@ == "transfer message refused"@
}

/// The error given when the sender's key has no account address.
pub open spec fn no_sender_account(e: Error) -> bool {
    e matches Error::InvalidConfig(m) && m@ == "sender key has no account address"@
}

/// The JSON text of a transfer of `amount` base units to `recipient`.
pub open spec fn transfer_json(amount: u64, recipient: Seq<char>) -> Seq<char> {
    "{\"transfer\":{\"amount\":"@ + json_string(decimal(amount as nat)) + ",\"recipient\":"@
        + json_string(recipient) + "}}"@
}

/// The JSON text of recipient `i`'s transfer, in micro-units.
pub open spec fn recipient_json(data: MultisendInstruction, i: int) -> Seq<char> {
    transfer_json(
        micro_units_of(data.recipients@[i].amount) as u64,
        data.recipients@[i].address@,
    )
}

/// Recipient `i`'s transfer, sent by `sender` to the token contract that its `coin` names.
pub open spec fn recipient_call(sender: Seq<char>, data: MultisendInstruction, i: int) -> terra_rust_api::Message {
    contract_call(sender, data.recipients@[i].coin@, recipient_json(data, i))
}

/// `msgs` holds recipient `i`'s transfer from `sender` at each index `i`, one per recipient.
pub open spec fn calls_from(
    sender: Seq<char>,
    data: MultisendInstruction,
    msgs: Seq<terra_rust_api::Message>,
) -> bool {
    &&& msgs.len() == data.recipients@.len()
    &&& forall|i: int| 0 <= i < msgs.len() ==> #[trigger] msgs[i] == recipient_call(sender, data, i)
}

/// One contract call from the account `sender` per recipient, in order, each for the
/// recipient's amount in micro-units of the token that its `coin` names.
pub fn build_transfer_msgs_from(sender: &str, data: &MultisendInstruction) -> (r: Result<
    Vec<terra_rust_api::Message>,
    Error,
>)
    ensures
        r is Ok <==> forall|i: int|
            0 <= i < data.recipients@.len() ==> #[trigger] json_parses(recipient_json(*data, i)),
        r is Ok ==> calls_from(sender@, *data, r->Ok_0@),
        r is Err ==> refused_transfer(r->Err_0),
{
    let mut msgs: Vec<terra_rust_api::Message> = Vec::new();
    let mut i: usize = 0;
    while i < data.recipients.len()
        invariant
            i <= data.recipients@.len(),
            msgs@.len() == i,
            forall|j: int| 0 <= j < i ==> #[trigger] json_parses(recipient_json(*data, j)),
            forall|j: int| 0 <= j < i ==> #[trigger] msgs@[j] == recipient_call(sender@, *data, j),
        decreases data.recipients@.len() - i,
    {
        let instr = &data.recipients[i];
        match ExecuteMsg::create_transfer(
            to_micro_units(instr.amount),
            sender,
            instr.address.as_str(),
            instr.coin.as_str(),
        ) {
            Ok(m) => {
                msgs.push(m);
            },
            Err(e) => {
                assert(!json_parses(recipient_json(*data, i as int)));
                return Err(e);
            },
        }
        i = i + 1;
    }
    Ok(msgs)
}

/// One contract call from the key's account per recipient, in order; see
/// `build_transfer_msgs_from`.
pub fn build_transfer_msgs(sender_address: &terra_rust_api::PublicKey, data: &MultisendInstruction) -> (r: Result<
    Vec<terra_rust_api::Message>,
    Error,
>)
    ensures
        r is Ok <==> account_address(*sender_address) is Some && forall|i: int|
            0 <= i < data.recipients@.len() ==> #[trigger] json_parses(recipient_json(*data, i)),
        r is Ok ==> calls_from(account_address(*sender_address)->0, *data, r->Ok_0@),
        account_address(*sender_address) is None ==> r is Err && no_sender_account(r->Err_0),
        account_address(*sender_address) is Some && r is Err ==> refused_transfer(r->Err_0),
{
    let sender = match account_of(sender_address) {
        Ok(a) => a,
        Err(_) => {
            return Err(Error::InvalidConfig("sender key has no account address".to_owned()));
        },
    };
    build_transfer_msgs_from(sender.as_str(), data)
}

/// The balance held by one account of a token contract.
pub struct QueryResult {
    pub balance: String,
}

/// A query to a token contract, or its answer.
pub enum QueryMsg {
    Balance { address: String },
    QueryResult(QueryResult),
}

impl QueryMsg {
    /// The JSON text of the query or answer.
    pub open spec fn json_text(&self) -> Seq<char> {
        match self {
            QueryMsg::Balance { address } => "{\"balance\":{\"address\":"@ + json_string(address@)
                + "}}"@,
            QueryMsg::QueryResult(q) => "{\"query_result\":{\"balance\":"@ + json_string(
                q.balance@,
            ) + "}}"@,
        }
    }

    pub fn to_json(&self) -> (r: String)
        ensures
            r@ == self.json_text(),
    {
        let mut out = String::new();
        match self {
            QueryMsg::Balance { address } => {
                push_str(&mut out, "{\"balance\":{\"address\":");
                push_json_string(&mut out, address.as_str());
            },
            QueryMsg::QueryResult(q) => {
                push_str(&mut out, "{\"query_result\":{\"balance\":");
                push_json_string(&mut out, q.balance.as_str());
            },
        }
        push_str(&mut out, "}}");
        proof {
            reveal_strlit("{\"balance\":{\"address\":");
            reveal_strlit("{\"query_result\":{\"balance\":");
            reveal_strlit("}}");
        }
        assert(out@ =~= self.json_text());
        out
    }

    /// The JSON text in base64, as a contract query in a URL carries it.
    pub fn base64encode(&self) -> (r: String)
        ensures
            r@ == base64_of(self.json_text()),
    {
        let json = self.to_json();
        base64_encode(json.as_str())
    }

    /// The LCD path that sends this query to the token contract `token_contract`.
    pub fn store_query_path(&self, token_contract: &str) -> (r: String)
        ensures
            r@ == "/terra/wasm/v1beta1/contracts/"@ + token_contract@ + "/store?query_msg="@
                + base64_of(self.json_text()),
    {
        let mut out = String::new();
        push_str(&mut out, "/terra/wasm/v1beta1/contracts/");
        push_str(&mut out, token_contract);
        push_str(&mut out, "/store?query_msg=");
        let encoded = self.base64encode();
        push_str(&mut out, encoded.as_str());
        assert(out@ =~= "/terra/wasm/v1beta1/contracts/"@ + token_contract@ + "/store?query_msg="@
            + base64_of(self.json_text()));
        out
    }

    /// The balance that an answer reports, when it is a number that fits in 64 bits.
    pub fn balance(self) -> (r: Option<u64>)
        ensures
            match self {
                QueryMsg::QueryResult(q) => if is_u64_text(q.balance@) {
                    r == Some(digits_value(unsigned_digits(q.balance@)) as u64)
                } else {
                    r is None
                },
                QueryMsg::Balance { .. } => r is None,
            },
    {
        match self {
            QueryMsg::QueryResult(result) => parse_u64(result.balance.as_str()),
            QueryMsg::Balance { .. } => None,
        }
    }
}

} // verus!
