//! Values of the host chain as the engine reads and writes them: addresses,
//! the environment of one invocation, and the instructions and responses an
//! invocation hands back.
use vstd::prelude::*;
use vstd::string::StringExecFns;
use crate::master_msg::MasterHandleMsg;
use crate::secret_vote_types::{PollFactoryHandleMsg, PollHandleMsg, PollInitMsg};

verus! {

/// A human-readable account or contract address.
#[derive(Debug, PartialEq, Eq)]
pub struct HumanAddr(pub String);

impl View for HumanAddr {
    type V = Seq<char>;

    open spec fn view(&self) -> Seq<char> {
        self.0@
    }
}

impl Clone for HumanAddr {
    fn clone(&self) -> (res: Self)
        ensures
            res == *self,
    {
        HumanAddr(self.0.clone())
    }
}

impl HumanAddr {
    /// Whether two addresses are spelled the same.
    pub fn same_as(&self, other: &HumanAddr) -> (res: bool)
        ensures
            res == (self@ == other@),
    {
        self.0 == other.0
    }
}

/// Height and time of the block an invocation runs in.
#[derive(Debug, PartialEq, Eq)]
pub struct BlockInfo {
    pub height: u64,
    /// Seconds since the epoch.
    pub time: u64,
    pub chain_id: String,
}

/// Who sent the message being handled.
#[derive(Debug, PartialEq, Eq)]
pub struct MessageInfo {
    pub sender: HumanAddr,
}

/// The contract instance handling the message.
#[derive(Debug, PartialEq, Eq)]
pub struct ContractInfo {
    pub address: HumanAddr,
}

/// The environment of one invocation.
#[derive(Debug, PartialEq, Eq)]
pub struct Env {
    pub block: BlockInfo,
    pub message: MessageInfo,
    pub contract: ContractInfo,
    pub contract_code_hash: String,
}

/// The body of a message for another contract.
#[derive(Clone, Debug, PartialEq, Eq)]
#[allow(inconsistent_fields)]
pub enum MsgBody {
    /// Bytes in the form the receiving contract reads.
    Encoded(Vec<u8>),
    /// A request to the master, still to be encoded.
    Master(MasterHandleMsg),
    /// A request to the poll factory, still to be encoded.
    PollFactory(PollFactoryHandleMsg),
    /// A request to a poll, still to be encoded.
    Poll(PollHandleMsg),
}

/// An instruction for another contract.
#[derive(Clone, Debug, PartialEq, Eq)]
#[allow(inconsistent_fields)]
pub enum WasmMsg {
    /// Call the contract at `contract_addr`.
    Execute { contract_addr: HumanAddr, callback_code_hash: String, msg: MsgBody },
    /// Create a poll from the code `code_id`.
    Instantiate { code_id: u64, callback_code_hash: String, msg: PollInitMsg, label: String },
}

/// An instruction the host carries out after the invocation.
#[derive(Clone, Debug, PartialEq, Eq)]
#[allow(inconsistent_fields)]
pub enum CosmosMsg {
    Wasm(WasmMsg),
}

/// One entry of an invocation's log.
#[derive(Clone, Debug, PartialEq, Eq)]
pub struct LogAttribute {
    pub key: String,
    pub value: String,
}

/// What a successful creation hands back.
#[derive(Clone, Debug, PartialEq, Eq)]
pub struct InitResponse {
    pub messages: Vec<CosmosMsg>,
    pub log: Vec<LogAttribute>,
}

/// What a successful request hands back: instructions in the order they are
/// to be delivered, log entries, and an answer of type `D`.
#[derive(Clone, Debug, PartialEq, Eq)]
pub struct HandleResponse<D> {
    pub messages: Vec<CosmosMsg>,
    pub log: Vec<LogAttribute>,
    pub data: Option<D>,
}

/// A log entry with the given key and value.
pub open spec fn is_log(entry: LogAttribute, key: Seq<char>, value: Seq<char>) -> bool {
    entry.key@ == key && entry.value@ == value
}

/// The log entry that records the address `value` under `key`.
pub fn log(key: &str, value: &HumanAddr) -> (entry: LogAttribute)
    ensures
        is_log(entry, key@, value@),
{
    LogAttribute { key: String::from_str(key), value: value.0.clone() }
}

} // verus!
