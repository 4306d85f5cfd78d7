//! The account aggregate.
//!
//! An account does not store its balance. It holds the balance that all
//! earlier activity left it with, the baseline, and the window of activities
//! since then; its balance is the baseline plus what the window gives it.

use super::activity::{
    lemma_net_balance_push, net_balance, Activity, ActivityView, ActivityWindow,
};
use super::money::Money;
use super::timestamp::Timestamp;
use vstd::prelude::*;

verus! {

/// The identity of an account. Two identifiers are alike or not; they carry
/// no order.
#[derive(Clone, Copy, Debug, PartialEq, Eq, Structural)]
pub struct AccountId(pub u64);

/// An account: its identity, if it has been stored, its baseline balance and
/// the activities since the baseline.
#[derive(Debug)]
pub struct Account {
    id: Option<AccountId>,
    baseline_balance: Money,
    activity_window: ActivityWindow,
}

/// What an account holds, as contracts speak of it.
pub struct AccountView {
    pub id: Option<AccountId>,
    pub baseline_balance: Money,
    pub activities: Seq<ActivityView>,
}

impl AccountView {
    /// The balance of an account with an identity: the baseline plus the
    /// balance of the window, each sum saturated.
    pub open spec fn balance(self) -> Money
        recommends
            self.id is Some,
    {
        self.baseline_balance.spec_add(Money::of(net_balance(self.activities, self.id.unwrap())))
    }

    /// Whether `money` may leave the account: it has an identity, and its
    /// balance less `money` is not negative.
    pub open spec fn may_withdraw(self, money: Money) -> bool {
        self.id is Some && self.balance()@ - money@ >= 0
    }

    /// The entry that a withdrawal of `money` towards `target` at `at`
    /// leaves in the ledger: unsaved, filed under the account, from the
    /// account to `target`.
    pub open spec fn withdrawal(
        self,
        money: Money,
        target: AccountId,
        at: Timestamp,
    ) -> ActivityView
        recommends
            self.id is Some,
    {
        ActivityView {
            id: None,
            owner_account_id: self.id.unwrap(),
            source_account_id: self.id.unwrap(),
            target_account_id: target,
            timestamp: at,
            money,
        }
    }

    /// The entry that a deposit of `money` from `source` at `at` leaves in
    /// the ledger: unsaved, filed under the account, from `source` to the
    /// account.
    pub open spec fn deposit(
        self,
        money: Money,
        source: AccountId,
        at: Timestamp,
    ) -> ActivityView
        recommends
            self.id is Some,
    {
        ActivityView {
            id: None,
            owner_account_id: self.id.unwrap(),
            source_account_id: source,
            target_account_id: self.id.unwrap(),
            timestamp: at,
            money,
        }
    }

    /// The account with `entry` added at the end of its window.
    pub open spec fn with_entry(self, entry: ActivityView) -> AccountView {
        AccountView { activities: self.activities.push(entry), ..self }
    }
}

impl View for Account {
    type V = AccountView;

    closed spec fn view(&self) -> AccountView {
        AccountView {
            id: self.id,
            baseline_balance: self.baseline_balance,
            activities: self.activity_window@,
        }
    }
}

impl Account {
    /// An account that has no identity yet.
    pub fn new(baseline_balance: Money, activity_window: ActivityWindow) -> (r: Account)
        ensures
            r@ == (AccountView { id: None, baseline_balance, activities: activity_window@ }),
    {
        Account { id: None, baseline_balance, activity_window }
    }

    /// An account under its identity.
    pub fn new_with_id(
        id: AccountId,
        baseline_balance: Money,
        activity_window: ActivityWindow,
    ) -> (r: Account)
        ensures
            r@ == (AccountView { id: Some(id), baseline_balance, activities: activity_window@ }),
    {
        Account { id: Some(id), baseline_balance, activity_window }
    }

    /// The identity, if the account has one.
    pub fn id(&self) -> (r: Option<&AccountId>)
        ensures
            match r {
                Some(id) => self@.id == Some(*id),
                None => self@.id is None,
            },
    {
        self.id.as_ref()
    }

    /// The balance: the baseline plus the balance of the window.
    ///
    /// Only an account with an identity has a balance. To ask for that of
    /// another is a defect in the caller, which `requires` rules out.
    pub fn calculate_balance(&self) -> (r: Money)
        requires
            self@.id is Some,
        ensures
            r == self@.balance(),
    {
        let id = self.id.expect("Cannot calculate balance. Account Id is not set.");
        let activity_balance = self.activity_window.calculate_balance(id);
        self.baseline_balance + activity_balance
    }

    /// Whether `money` may leave the account.
    fn may_withdraw_money(&self, money: Money) -> (r: bool)
        ensures
            r == self@.may_withdraw(money),
    {
        if self.id.is_none() {
            return false;
        }
        (self.calculate_balance() - money).is_positive_or_zero()
    }

    /// Takes `money` out of the account towards `target_id`, at the time
    /// `at`. Where the account has no identity, or its balance less `money`
    /// would be negative, nothing changes and `false` comes back. Otherwise
    /// the withdrawal is added to the window.
    pub fn withdraw_at(
        &mut self,
        money: Money,
        target_id: AccountId,
        at: Timestamp,
    ) -> (ok: bool)
        ensures
            ok == old(self)@.may_withdraw(money),
            !ok ==> final(self)@ == old(self)@,
            ok ==> final(self)@ == old(self)@.with_entry(
                old(self)@.withdrawal(money, target_id, at),
            ),
    {
        if !self.may_withdraw_money(money) {
            return false;
        }
        let id = self.id.unwrap();
        let withdrawal = Activity::new(id, id, target_id, at, money);
        self.activity_window.add_activity(withdrawal);
        true
    }

    /// Takes `money` out of the account towards `target_id`, now. Where the
    /// account has no identity, or its balance less `money` would be
    /// negative, nothing changes and `false` comes back. Otherwise the
    /// withdrawal is added to the window, under the time that the clock
    /// gave.
    pub fn withdraw(&mut self, money: Money, target_id: AccountId) -> (ok: bool)
        ensures
            ok == old(self)@.may_withdraw(money),
            !ok ==> final(self)@ == old(self)@,
            ok ==> exists|at: Timestamp|
                final(self)@ == old(self)@.with_entry(
                    #[trigger] old(self)@.withdrawal(money, target_id, at),
                ),
    {
        let at = Timestamp::now();
        self.withdraw_at(money, target_id, at)
    }

    /// Puts `money` from `source_account` into the account, at the time
    /// `at`. An account without identity takes nothing and `false` comes
    /// back. Otherwise the deposit is added to the window, whatever the
    /// amount and the balance.
    pub fn deposit_at(
        &mut self,
        money: Money,
        source_account: AccountId,
        at: Timestamp,
    ) -> (ok: bool)
        ensures
            ok == (old(self)@.id is Some),
            !ok ==> final(self)@ == old(self)@,
            ok ==> final(self)@ == old(self)@.with_entry(
                old(self)@.deposit(money, source_account, at),
            ),
    {
        if self.id.is_none() {
            return false;
        }
        let id = self.id.unwrap();
        let deposit = Activity::new(id, source_account, id, at, money);
        self.activity_window.add_activity(deposit);
        true
    }

    /// Puts `money` from `source_account` into the account, now. An account
    /// without identity takes nothing and `false` comes back. Otherwise the
    /// deposit is added to the window, under the time that the clock gave.
    pub fn deposit(&mut self, money: Money, source_account: AccountId) -> (ok: bool)
        ensures
            ok == (old(self)@.id is Some),
            !ok ==> final(self)@ == old(self)@,
            ok ==> exists|at: Timestamp|
                final(self)@ == old(self)@.with_entry(
                    #[trigger] old(self)@.deposit(money, source_account, at),
                ),
    {
        let at = Timestamp::now();
        self.deposit_at(money, source_account, at)
    }

    /// The balance that all activity before the window left.
    pub fn baseline_balance(&self) -> (r: &Money)
        ensures
            *r == self@.baseline_balance,
    {
        &self.baseline_balance
    }

    /// The activities since the baseline.
    pub fn activity_window(&self) -> (r: &ActivityWindow)
        ensures
            r@ == self@.activities,
    {
        &self.activity_window
    }
}

/// A withdrawal adds one entry to the window and lowers the net balance of
/// the account by its amount, unless it goes to the account itself, which
/// leaves the net balance as it was.
pub proof fn lemma_withdrawal_lowers_net_balance(
    account: AccountView,
    money: Money,
    target: AccountId,
    at: Timestamp,
)
    requires
        account.id is Some,
    ensures
        ({
            let id = account.id.unwrap();
            let after = account.with_entry(account.withdrawal(money, target, at));
            &&& after.activities.len() == account.activities.len() + 1
            &&& net_balance(after.activities, id) == net_balance(account.activities, id) - if target
                == id {
                0
            } else {
                money@
            }
        }),
{
    lemma_net_balance_push(
        account.activities,
        account.withdrawal(money, target, at),
        account.id.unwrap(),
    );
}

/// A deposit adds one entry to the window and raises the net balance of the
/// account by its amount, unless it comes from the account itself, which
/// leaves the net balance as it was.
pub proof fn lemma_deposit_raises_net_balance(
    account: AccountView,
    money: Money,
    source: AccountId,
    at: Timestamp,
)
    requires
        account.id is Some,
    ensures
        ({
            let id = account.id.unwrap();
            let after = account.with_entry(account.deposit(money, source, at));
            &&& after.activities.len() == account.activities.len() + 1
            &&& net_balance(after.activities, id) == net_balance(account.activities, id) + if source
                == id {
                0
            } else {
                money@
            }
        }),
{
    lemma_net_balance_push(
        account.activities,
        account.deposit(money, source, at),
        account.id.unwrap(),
    );
}

/// Where no sum leaves the range of an amount, the balance is the exact sum
/// of the baseline and the net balance of the window.
pub proof fn lemma_balance_is_exact(account: AccountView)
    requires
        account.id is Some,
        i64::MIN <= net_balance(account.activities, account.id.unwrap()) <= i64::MAX,
        i64::MIN <= account.baseline_balance@ + net_balance(
            account.activities,
            account.id.unwrap(),
        ) <= i64::MAX,
    ensures
        account.balance()@ == account.baseline_balance@ + net_balance(
            account.activities,
            account.id.unwrap(),
        ),
{
}

/// Why an account could not be built.
#[derive(Debug)]
pub enum AccountBuilderError {
    /// A field was not set. It holds the field's name.
    UninitializedField(&'static str),
}

/// Collects the fields of an account one by one, each handing the builder
/// on. All three have to be set before an account can be built.
#[derive(Debug)]
pub struct AccountBuilder {
    id: Option<AccountId>,
    baseline_balance: Option<Money>,
    activity_window: Option<ActivityWindow>,
}

/// The fields that a builder has been given so far.
pub struct AccountBuilderView {
    pub id: Option<AccountId>,
    pub baseline_balance: Option<Money>,
    pub activities: Option<Seq<ActivityView>>,
}

impl AccountBuilderView {
    /// No field set.
    pub open spec fn unset() -> AccountBuilderView {
        AccountBuilderView { id: None, baseline_balance: None, activities: None }
    }

    /// Whether every field is set.
    pub open spec fn complete(self) -> bool {
        self.id is Some && self.baseline_balance is Some && self.activities is Some
    }

    /// The account that complete fields make.
    pub open spec fn account(self) -> AccountView
        recommends
            self.complete(),
    {
        AccountView {
            id: self.id,
            baseline_balance: self.baseline_balance.unwrap(),
            activities: self.activities.unwrap(),
        }
    }

    /// The name of the first field that is not set.
    pub open spec fn first_missing(self) -> Seq<char>
        recommends
            !self.complete(),
    {
        if self.id is None {
            "id"@
        } else if self.baseline_balance is None {
            "baseline_balance"@
        } else {
            "activity_window"@
        }
    }
}

impl View for AccountBuilder {
    type V = AccountBuilderView;

    closed spec fn view(&self) -> AccountBuilderView {
        AccountBuilderView {
            id: self.id,
            baseline_balance: self.baseline_balance,
            activities: match self.activity_window {
                Some(window) => Some(window@),
                None => None,
            },
        }
    }
}

impl Default for AccountBuilder {
    /// A builder with no field set.
    fn default() -> (r: AccountBuilder)
        ensures
            r@ == AccountBuilderView::unset(),
    {
        AccountBuilder { id: None, baseline_balance: None, activity_window: None }
    }
}

impl AccountBuilder {
    /// Sets the identity.
    pub fn id(self, value: AccountId) -> (r: AccountBuilder)
        ensures
            r@ == (AccountBuilderView { id: Some(value), ..self@ }),
    {
        AccountBuilder {
            id: Some(value),
            baseline_balance: self.baseline_balance,
            activity_window: self.activity_window,
        }
    }

    /// Sets the balance that all activity before the window left.
    pub fn baseline_balance(self, value: Money) -> (r: AccountBuilder)
        ensures
            r@ == (AccountBuilderView { baseline_balance: Some(value), ..self@ }),
    {
        AccountBuilder {
            id: self.id,
            baseline_balance: Some(value),
            activity_window: self.activity_window,
        }
    }

    /// Sets the activities since the baseline.
    pub fn activity_window(self, value: ActivityWindow) -> (r: AccountBuilder)
        ensures
            r@ == (AccountBuilderView { activities: Some(value@), ..self@ }),
    {
        AccountBuilder {
            id: self.id,
            baseline_balance: self.baseline_balance,
            activity_window: Some(value),
        }
    }

    /// Builds the account once every field is set. Otherwise the error names
    /// the first of identity, baseline balance and window that is missing.
    pub fn build(self) -> (r: Result<Account, AccountBuilderError>)
        ensures
            match r {
                Ok(account) => self@.complete() && account@ == self@.account(),
                Err(AccountBuilderError::UninitializedField(name)) => !self@.complete() && name@
                    == self@.first_missing(),
            },
    {
        let id = match self.id {
            Some(id) => Some(id),
            None => {
                return Err(AccountBuilderError::UninitializedField("id"));
            },
        };
        let baseline_balance = match self.baseline_balance {
            Some(balance) => balance,
            None => {
                return Err(AccountBuilderError::UninitializedField("baseline_balance"));
            },
        };
        let activity_window = match self.activity_window {
            Some(window) => window,
            None => {
                return Err(AccountBuilderError::UninitializedField("activity_window"));
            },
        };
        Ok(Account { id, baseline_balance, activity_window })
    }
}

} // verus!
