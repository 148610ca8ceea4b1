//! The structured commands the factory accepts and the structured
//! results it hands back to the host.
//!
//! The host owns transport and serialization; the factory speaks only
//! in these plain values. A `Response` carries the actions the host
//! must dispatch and the event attributes of the invocation.

use vstd::prelude::*;
use crate::asset::AssetInfoPair;
use crate::store::PairInfo;

verus! {

/// The initialization command: the two code templates children are
/// created from.
#[derive(Debug, PartialEq, Eq)]
pub struct InstantiateMsg {
    pub pair_code_id: u64,
    pub token_code_id: u64,
}

/// The administrative and creation commands.
#[derive(Debug, PartialEq, Eq)]
pub enum ExecuteMsg {
    UpdateConfig { owner: Option<String>, token_code_id: Option<u64>, pair_code_id: Option<u64> },
    CreatePair { asset_infos: AssetInfoPair },
    MigratePair { contract: String, code_id: Option<u64> },
}

/// The read-only queries.
#[derive(Debug, PartialEq, Eq)]
pub enum QueryMsg {
    Config {},
    Pair { asset_infos: AssetInfoPair },
    Pairs { start_after: Option<AssetInfoPair>, limit: Option<u32> },
}

/// The version-migration command; it carries nothing.
#[derive(Debug, PartialEq, Eq)]
pub struct MigrateMsg {}

/// The configuration as a query reports it.
#[derive(Debug, PartialEq, Eq)]
pub struct ConfigResponse {
    pub owner: String,
    pub token_code_id: u64,
    pub pair_code_id: u64,
}

/// One page of registry entries, as a query reports it.
#[derive(Debug, PartialEq, Eq)]
pub struct PairsResponse {
    pub pairs: Vec<PairInfo>,
}

/// The answer to a query, still structured; the host serializes it.
#[derive(Debug, PartialEq, Eq)]
pub enum QueryAnswer {
    Config(ConfigResponse),
    Pair(PairInfo),
    Pairs(PairsResponse),
}

/// The creation parameters handed to a new child pair contract.
#[derive(Debug, PartialEq, Eq)]
pub struct PairInstantiateMsg {
    pub asset_infos: AssetInfoPair,
    pub token_code_id: u64,
}

/// An action the host must carry out against another contract.
#[derive(Debug, PartialEq, Eq)]
pub enum WasmAction {
    /// Instantiate a child pair contract from a code template; the
    /// child carries no funds, no admin and an empty label.
    Instantiate { code_id: u64, msg: PairInstantiateMsg, label: String },
    /// Upgrade the named contract to a code template, with an empty
    /// migration payload.
    Migrate { contract_addr: String, new_code_id: u64 },
}

/// An action whose acknowledgment the host must deliver back, tagged
/// with the correlation identifier `id`.
#[derive(Debug, PartialEq, Eq)]
pub struct SubMsg {
    pub id: u64,
    pub action: WasmAction,
    pub reply_on_success: bool,
}

/// One key/value event attribute.
#[derive(Debug, PartialEq, Eq)]
pub struct Attribute {
    pub key: String,
    pub value: String,
}

/// What an invocation hands back to the host: plain actions,
/// acknowledged actions, and event attributes.
#[derive(Debug, PartialEq, Eq)]
pub struct Response {
    pub messages: Vec<WasmAction>,
    pub submessages: Vec<SubMsg>,
    pub attributes: Vec<Attribute>,
}

/// The correlation identifier the creation sub-message carries.
pub const CREATE_PAIR_REPLY_ID: u64 = 1;

/// The outcome of a dispatched creation, as the host reports it.
#[derive(Debug, PartialEq, Eq)]
pub enum ReplyResult {
    /// The child was instantiated; `data` is the host's binary
    /// envelope naming it.
    Success { data: Option<Vec<u8>> },
    /// The instantiation failed in the child or the host.
    Failure,
}

/// The acknowledgment of a dispatched creation.
#[derive(Debug, PartialEq, Eq)]
pub struct ReplyMsg {
    pub id: u64,
    pub result: ReplyResult,
}

/// An invocation result with nothing for the host to do.
pub fn empty_response() -> (r: Response)
    ensures
        r.messages@ =~= Seq::<WasmAction>::empty(),
        r.submessages@ =~= Seq::<SubMsg>::empty(),
        r.attributes@ =~= Seq::<Attribute>::empty(),
{
    Response { messages: Vec::new(), submessages: Vec::new(), attributes: Vec::new() }
}

/// Builds one event attribute from a literal key and an owned value.
pub fn attr(key: &str, value: String) -> (r: Attribute)
    ensures
        r.key@ == key@,
        r.value == value,
{
    Attribute { key: String::from_str(key), value }
}

} // verus!
