//! Instantiate and call requests for the execution context, and the reading
//! of its dispatch outcome.
use vstd::prelude::*;
use crate::events::AccountId;
use crate::salt::encode_array32;

verus! {

/// The gas ceiling of every request.
pub const GAS_LIMIT: u64 = 200_000_000_000;

/// A request to deploy `code` and run its constructor on `data`.
#[derive(Debug, Clone)]
pub struct InstantiationRequest {
    pub origin: AccountId,
    pub value: u128,
    pub gas_limit: u64,
    pub storage_deposit_limit: Option<u128>,
    pub code: Vec<u8>,
    pub data: Vec<u8>,
    pub salt: Vec<u8>,
}

/// A request to run the message `data` on the contract at `dest`.
#[derive(Debug, Clone)]
pub struct CallRequest {
    pub origin: AccountId,
    pub dest: AccountId,
    pub value: u128,
    pub gas_limit: u64,
    pub storage_deposit_limit: Option<u128>,
    pub data: Vec<u8>,
}

#[derive(Debug, Clone, Copy, PartialEq, Eq, Structural)]
pub enum ExecutionError {
    /// The execution context rejected the request.
    DispatchFailed,
}

/// `r` deploys `code` from `origin` with constructor input `data` and salt
/// `salt`, no endowment, the fixed gas ceiling and no deposit limit.
pub open spec fn is_instantiation(
    r: InstantiationRequest,
    origin: AccountId,
    code: Seq<u8>,
    data: Seq<u8>,
    salt: Seq<u8>,
) -> bool {
    &&& r.origin == origin
    &&& r.value == 0
    &&& r.gas_limit == GAS_LIMIT
    &&& r.storage_deposit_limit is None
    &&& r.code@ == code
    &&& r.data@ == data
    &&& r.salt@ == salt
}

/// `r` sends message `data` from `origin` to `dest`, with no value, the fixed
/// gas ceiling and no deposit limit.
pub open spec fn is_call(r: CallRequest, origin: AccountId, dest: AccountId, data: Seq<u8>) -> bool {
    &&& r.origin == origin
    &&& r.dest == dest
    &&& r.value == 0
    &&& r.gas_limit == GAS_LIMIT
    &&& r.storage_deposit_limit is None
    &&& r.data@ == data
}

pub fn instantiate_request(deployer: AccountId, code: Vec<u8>, data: Vec<u8>, salt: Vec<u8>) -> (r:
    InstantiationRequest)
    ensures
        is_instantiation(r, deployer, code@, data@, salt@),
{
    InstantiationRequest {
        origin: deployer,
        value: 0,
        gas_limit: GAS_LIMIT,
        storage_deposit_limit: None,
        code,
        data,
        salt,
    }
}

pub fn call_request(deployer: AccountId, dest: AccountId, data: Vec<u8>) -> (r: CallRequest)
    ensures
        is_call(r, deployer, dest, data@),
{
    CallRequest {
        origin: deployer,
        dest,
        value: 0,
        gas_limit: GAS_LIMIT,
        storage_deposit_limit: None,
        data,
    }
}

/// Constructor input made of a selector followed by the encoding of an
/// address argument.
pub fn with_address_arg(selector: &Vec<u8>, arg: &AccountId) -> (r: Vec<u8>)
    ensures
        r@ == selector@ + arg.bytes@,
{
    let mut data = selector.clone();
    let mut encoded = encode_array32(&arg.bytes);
    data.append(&mut encoded);
    data
}

/// The outcome of a dispatch: success exactly when the context accepted it.
pub fn check_dispatch(accepted: bool) -> (r: Result<(), ExecutionError>)
    ensures
        accepted ==> r == Ok::<(), ExecutionError>(()),
        !accepted ==> r == Err::<(), ExecutionError>(ExecutionError::DispatchFailed),
{
    if accepted {
        Ok(())
    } else {
        Err(ExecutionError::DispatchFailed)
    }
}

} // verus!
