use vstd::prelude::*;

verus! {

/// A (denomination, amount) pair, as attached to an invocation or carried
/// by an outbound transfer.
#[derive(Clone, Debug, PartialEq)]
pub struct Coin {
    pub denom: String,
    pub amount: u128,
}

/// When the host must deliver a reply for a dispatched submessage.
#[derive(Clone, Copy, Debug, PartialEq, Eq, Structural)]
pub enum ReplyOn {
    /// Reply only if the dispatched call succeeded.
    Success,
    /// Reply only if the dispatched call failed.
    Error,
    /// Never reply: a plain message with no continuation.
    Never,
}

/// The venue-specific swap instruction carried by an outbound call to the
/// swap pool: offer this amount of this asset, send proceeds to `to`.
#[derive(Clone, Debug, PartialEq)]
pub struct SwapInstruction {
    pub offer_denom: String,
    pub offer_amount: u128,
    pub to: String,
}

/// An outbound call issued by the contract.
#[derive(Clone, Debug, PartialEq)]
pub enum ContractMsg {
    /// Execute the swap venue contract, attaching the offered funds.
    WasmExecuteSwap { contract_addr: String, swap: SwapInstruction, funds: Vec<Coin> },
    /// Transfer assets to an address on the host ledger.
    BankSend { to_address: String, amount: Vec<Coin> },
}

/// An outbound call together with its correlation tag and its reply policy.
#[derive(Clone, Debug, PartialEq)]
pub struct SubMsg {
    pub msg: ContractMsg,
    pub id: u64,
    pub reply_on: ReplyOn,
}

/// A key/value pair describing what an invocation did.
#[derive(Clone, Debug, PartialEq)]
pub struct Attribute {
    pub key: String,
    pub value: String,
}

/// Everything a successful invocation hands back to the host: the outbound
/// calls to dispatch and the descriptive attributes to record.
#[derive(Clone, Debug, PartialEq)]
pub struct Response {
    pub messages: Vec<SubMsg>,
    pub attributes: Vec<Attribute>,
}

} // verus!
