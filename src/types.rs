use vstd::prelude::*;

verus! {

/// An amount of one denomination.
#[derive(Debug, Clone, PartialEq, Eq)]
pub struct Coin {
    pub denom: String,
    pub amount: u128,
}

pub fn coin(amount: u128, denom: &str) -> (r: Coin)
    ensures
        r.amount == amount,
        r.denom@ == denom@,
{
    Coin { denom: denom.to_owned(), amount }
}

/// What the host tells a contract about the block and itself.
#[derive(Debug, Clone, PartialEq, Eq)]
pub struct Env {
    /// Block time, in seconds.
    pub now: u64,
    pub contract_address: String,
}

/// Who called, and which coins came with the call.
#[derive(Debug, Clone, PartialEq, Eq)]
pub struct MessageInfo {
    pub sender: String,
    pub funds: Vec<Coin>,
}

#[derive(Debug, Clone, PartialEq, Eq)]
pub struct Attribute {
    pub key: String,
    pub value: String,
}

pub fn attr(key: &str, value: String) -> (r: Attribute)
    ensures
        r.key@ == key@,
        r.value == value,
{
    Attribute { key: key.to_owned(), value }
}

/// A message that a response asks the host to dispatch.
#[allow(inconsistent_fields)]
#[derive(Debug, Clone, PartialEq, Eq)]
pub enum Msg {
    /// Bank transfer from the contract.
    BankSend { to_address: String, amount: Vec<Coin> },
    /// Bank transfer with an explicit sender (the bank module's `MsgSend`).
    Transfer { from_address: String, to_address: String, amount: Vec<Coin> },
    /// Token-factory mint to the sender.
    Mint { sender: String, amount: Coin },
    /// Token-factory burn from the sender.
    Burn { sender: String, amount: Coin },
    /// Token-factory creation of `factory/<sender>/<subdenom>`.
    CreateDenom { sender: String, subdenom: String },
    /// A liquidity manager's `Deposit { depositor }`, with `funds` attached.
    Deposit { contract_addr: String, depositor: String, funds: Vec<Coin> },
    /// A liquidity manager's `Withdraw { withdrawer, amount }`.
    Withdraw { contract_addr: String, withdrawer: String, amount: Coin },
    /// A batch of host messages, as the JSON bytes that the relayer signed.
    Relayed { msgs: Vec<u8> },
}

/// When a dispatched message reports back to the contract.
#[derive(Debug, Clone, Copy, PartialEq, Eq)]
pub enum ReplyOn {
    Never,
    Success,
    Error,
}

#[derive(Debug, Clone, PartialEq, Eq)]
pub struct SubMsg {
    pub id: u64,
    pub msg: Msg,
    pub reply_on: ReplyOn,
}

/// `msg` dispatched without a reply.
pub open spec fn plain(msg: Msg) -> SubMsg {
    SubMsg { id: 0, msg, reply_on: ReplyOn::Never }
}

pub fn sub_msg(msg: Msg) -> (r: SubMsg)
    ensures
        r == plain(msg),
{
    SubMsg { id: 0, msg, reply_on: ReplyOn::Never }
}

/// The messages and event attributes of a successful call.
#[derive(Debug, Clone, PartialEq, Eq)]
pub struct Response {
    pub messages: Vec<SubMsg>,
    pub attributes: Vec<Attribute>,
}

impl Response {
    pub fn new() -> (r: Response)
        ensures
            r.messages@.len() == 0,
            r.attributes@.len() == 0,
    {
        Response { messages: Vec::new(), attributes: Vec::new() }
    }
}

/// `action=<name>` and `executor=<sender>`, which every successful call emits first.
pub open spec fn starts_with_action(attrs: Seq<Attribute>, action: Seq<char>, executor: Seq<char>) -> bool {
    &&& attrs.len() >= 2
    &&& attrs[0].key@ == "action"@ && attrs[0].value@ == action
    &&& attrs[1].key@ == "executor"@ && attrs[1].value@ == executor
}

pub fn action_attrs(action: &str, executor: &String) -> (r: Vec<Attribute>)
    ensures
        r@.len() == 2,
        starts_with_action(r@, action@, executor@),
{
    proof {
        reveal_strlit("action");
        reveal_strlit("executor");
    }
    vec![attr("action", action.to_owned()), attr("executor", executor.clone())]
}

} // verus!

verus! {

/// The single coin of a payment: exactly one coin, of non-zero amount.
pub open spec fn paid_one(funds: Seq<Coin>) -> Option<Coin> {
    if funds.len() == 1 && funds[0].amount > 0 {
        Some(funds[0])
    } else {
        None
    }
}

/// The amount of a payment made in `denom` alone.
pub open spec fn paid_in(funds: Seq<Coin>, denom: Seq<char>) -> Option<u128> {
    match paid_one(funds) {
        Some(c) => if c.denom@ == denom {
            Some(c.amount)
        } else {
            None
        },
        None => None,
    }
}

impl Coin {
    pub fn duplicate(&self) -> (r: Coin)
        ensures
            r == *self,
    {
        Coin { denom: self.denom.clone(), amount: self.amount }
    }
}

/// The one coin sent with a call, if exactly one of non-zero amount was sent.
pub fn one_coin(funds: &Vec<Coin>) -> (r: Option<Coin>)
    ensures
        r == paid_one(funds@),
{
    if funds.len() == 1 && funds[0].amount > 0 {
        Some(funds[0].duplicate())
    } else {
        None
    }
}

/// The amount sent with a call, if it was one non-zero coin of `denom`.
pub fn must_pay(funds: &Vec<Coin>, denom: &String) -> (r: Option<u128>)
    ensures
        r == paid_in(funds@, denom@),
{
    match one_coin(funds) {
        Some(c) => if c.denom == *denom {
            Some(c.amount)
        } else {
            None
        },
        None => None,
    }
}

} // verus!

verus! {

/// Whether `m` is a plain bank transfer of `coins` from `from` to `to`.
pub open spec fn is_transfer(m: SubMsg, from: Seq<char>, to: Seq<char>, coins: Seq<Coin>) -> bool {
    &&& m.id == 0
    &&& m.reply_on == ReplyOn::Never
    &&& m.msg is Transfer
    &&& m.msg->Transfer_from_address@ == from
    &&& m.msg->Transfer_to_address@ == to
    &&& m.msg->Transfer_amount@ == coins
}

} // verus!
