//! Sending money from one account to another.

use crate::domain::account::AccountId;
use crate::domain::money::Money;
use vstd::prelude::*;

verus! {

/// Sends money as a command says, and tells whether it was sent or, where it
/// could not be tried, why.
pub trait SendMoneyUseCase {
    fn send_money(&self, cmd: SendMoneyCommand) -> Result<bool, String>;
}

/// The command to send `money` from one account to another.
pub struct SendMoneyCommand {
    source_account_id: AccountId,
    target_account_id: AccountId,
    money: Money,
}

impl SendMoneyCommand {
    pub closed spec fn spec_source_account_id(&self) -> AccountId {
        self.source_account_id
    }

    pub closed spec fn spec_target_account_id(&self) -> AccountId {
        self.target_account_id
    }

    pub closed spec fn spec_money(&self) -> Money {
        self.money
    }

    /// The command to send `money` from `source_account_id` to
    /// `target_account_id`. Every command is accepted.
    pub fn try_new(
        source_account_id: AccountId,
        target_account_id: AccountId,
        money: Money,
    ) -> (r: Result<SendMoneyCommand, String>)
        ensures
            r matches Ok(cmd) && cmd.spec_source_account_id() == source_account_id
                && cmd.spec_target_account_id() == target_account_id && cmd.spec_money() == money,
    {
        Ok(SendMoneyCommand { source_account_id, target_account_id, money })
    }

    /// The account that the money leaves.
    pub fn source_account_id(&self) -> (r: &AccountId)
        ensures
            *r == self.spec_source_account_id(),
    {
        &self.source_account_id
    }

    /// The account that the money reaches.
    pub fn target_account_id(&self) -> (r: &AccountId)
        ensures
            *r == self.spec_target_account_id(),
    {
        &self.target_account_id
    }

    /// The amount to send.
    pub fn money(&self) -> (r: &Money)
        ensures
            *r == self.spec_money(),
    {
        &self.money
    }
}

} // verus!
