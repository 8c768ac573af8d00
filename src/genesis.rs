//! The initial state of an isolated execution context: funded accounts, an
//! optional administrative key, and the block it starts at.
use vstd::prelude::*;
use crate::events::AccountId;

verus! {

pub type Balance = u128;

/// The block number at which every fresh context starts.
pub const FIRST_BLOCK: u32 = 1;

/// What an execution context is built from.
#[derive(Debug, Clone)]
pub struct Genesis {
    pub balances: Vec<(AccountId, Balance)>,
    pub sudo: Option<AccountId>,
    pub block_number: u32,
}

/// Collects the initial balances and the administrative key of a context.
#[derive(Debug, Clone)]
pub struct ExtBuilder {
    pub balances: Vec<(AccountId, Balance)>,
    pub sudo: Option<AccountId>,
}

impl Default for ExtBuilder {
    fn default() -> (r: ExtBuilder)
        ensures
            r.balances@.len() == 0,
            r.sudo is None,
    {
        ExtBuilder { balances: Vec::new(), sudo: None }
    }
}

impl ExtBuilder {
    /// Replaces the list of prefunded accounts.
    pub fn balances(self, balances: Vec<(AccountId, Balance)>) -> (r: ExtBuilder)
        ensures
            r.balances@ == balances@,
            r.sudo == self.sudo,
    {
        ExtBuilder { balances, sudo: self.sudo }
    }

    /// Sets the administrative key.
    pub fn sudo(self, sudo: AccountId) -> (r: ExtBuilder)
        ensures
            r.balances@ == self.balances@,
            r.sudo == Some(sudo),
    {
        ExtBuilder { balances: self.balances, sudo: Some(sudo) }
    }

    /// The genesis of a fresh context: the balances and key collected so far,
    /// starting at the first block.
    pub fn build(self) -> (r: Genesis)
        ensures
            r.balances@ == self.balances@,
            r.sudo == self.sudo,
            r.block_number == FIRST_BLOCK,
    {
        Genesis { balances: self.balances, sudo: self.sudo, block_number: FIRST_BLOCK }
    }
}

} // verus!
