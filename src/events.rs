//! Accounts, the execution context's event log, and recovery of the most
//! recently instantiated contract's address from it.
use vstd::prelude::*;

verus! {

/// A 32-byte identity: a principal or a contract address.
#[derive(Debug, Clone, Copy, PartialEq, Eq)]
pub struct AccountId {
    pub bytes: [u8; 32],
}

impl AccountId {
    pub fn new(bytes: [u8; 32]) -> (r: AccountId)
        ensures
            r.bytes == bytes,
    {
        AccountId { bytes }
    }

    /// Whether two identities hold the same bytes.
    pub fn same_as(&self, other: &AccountId) -> (r: bool)
        ensures
            r == (*self == *other),
    {
        let mut i: usize = 0;
        while i < 32
            invariant
                i <= 32,
                forall|k: int| 0 <= k < i ==> self.bytes@[k] == other.bytes@[k],
            decreases 32 - i,
        {
            if self.bytes[i] != other.bytes[i] {
                return false;
            }
            i = i + 1;
        }
        proof {
            broadcast use vstd::array::axiom_array_ext_equal;

            assert forall|k: int| 0 <= k < 32 implies self.bytes[k] == other.bytes[k] by {
                assert(self.bytes@[k] == other.bytes@[k]);
            }
            assert(self.bytes =~= other.bytes);
        }
        true
    }
}

/// One entry of the execution context's event log, as far as this library reads it.
#[derive(Debug, Clone, Copy, PartialEq, Eq)]
pub enum ContextEvent {
    /// A contract was instantiated at `contract` by `deployer`.
    Instantiated { deployer: AccountId, contract: AccountId },
    /// Any other event.
    Other,
}

#[derive(Debug, Clone, Copy, PartialEq, Eq, Structural)]
pub enum ResolutionError {
    /// The log holds no instantiation event.
    NotFound,
}

/// The contract of the last instantiation event in `log`.
pub open spec fn latest_instantiated(log: Seq<ContextEvent>) -> Option<AccountId>
    decreases log.len(),
{
    if log.len() == 0 {
        None
    } else {
        match log.last() {
            ContextEvent::Instantiated { contract, .. } => Some(contract),
            ContextEvent::Other => latest_instantiated(log.drop_last()),
        }
    }
}

/// Scans the log from the newest entry back and returns the contract of the
/// first instantiation event found.
pub fn latest_instantiated_address(log: &Vec<ContextEvent>) -> (r: Result<
    AccountId,
    ResolutionError,
>)
    ensures
        match latest_instantiated(log@) {
            Some(a) => r == Ok::<AccountId, ResolutionError>(a),
            None => r == Err::<AccountId, ResolutionError>(ResolutionError::NotFound),
        },
{
    let mut i: usize = log.len();
    assert(log@.subrange(0, i as int) =~= log@);
    while i > 0
        invariant
            i <= log@.len(),
            latest_instantiated(log@) == latest_instantiated(log@.subrange(0, i as int)),
        decreases i,
    {
        let ghost prefix = log@.subrange(0, i as int);
        assert(prefix.drop_last() =~= log@.subrange(0, i - 1));
        match log[i - 1] {
            ContextEvent::Instantiated { contract, .. } => {
                return Ok(contract);
            },
            ContextEvent::Other => {},
        }
        i = i - 1;
    }
    Err(ResolutionError::NotFound)
}

/// An instantiation event appended to a log, followed by events of other
/// kinds only, is the one that resolution finds.
pub proof fn lemma_latest_is_newest_instantiation(
    log: Seq<ContextEvent>,
    deployer: AccountId,
    contract: AccountId,
    later: Seq<ContextEvent>,
)
    requires
        forall|k: int| 0 <= k < later.len() ==> later[k] == ContextEvent::Other,
    ensures
        latest_instantiated(
            log.push(ContextEvent::Instantiated { deployer, contract }) + later,
        ) == Some(contract),
    decreases later.len(),
{
    let full = log.push(ContextEvent::Instantiated { deployer, contract }) + later;
    if later.len() > 0 {
        let shorter = later.drop_last();
        assert(full.drop_last() =~= log.push(ContextEvent::Instantiated { deployer, contract })
            + shorter);
        lemma_latest_is_newest_instantiation(log, deployer, contract, shorter);
    } else {
        assert(full =~= log.push(ContextEvent::Instantiated { deployer, contract }));
    }
}

} // verus!
