//! From stored rows to an account.

use crate::domain::account::{Account, AccountId, AccountView};
use crate::domain::activity::{
    views, Activity, ActivityBuilder, ActivityBuilderError, ActivityId, ActivityView,
    ActivityWindow,
};
use crate::domain::money::Money;
use crate::domain::timestamp::Timestamp;
use vstd::prelude::*;

verus! {

/// A stored activity, as its row holds it. The store keeps identifiers as
/// signed numbers.
#[derive(Debug)]
pub struct ActivityDto {
    pub id: i64,
    pub timestamp: Timestamp,
    pub owner_account_id: i64,
    pub source_account_id: i64,
    pub target_account_id: i64,
    pub amount: i64,
}

/// The identifier that the stored number `v` stands for: `v` itself, or,
/// where `v` is negative, `v` plus two to the power of 64.
pub open spec fn stored_id(v: i64) -> u64 {
    if v >= 0 {
        v as u64
    } else {
        (v + 0x1_0000_0000_0000_0000) as u64
    }
}

fn id_of(v: i64) -> (r: u64)
    ensures
        r == stored_id(v),
{
    assert(v as u64 == stored_id(v)) by (bit_vector);
    v as u64
}

impl ActivityDto {
    /// The activity that the row stands for.
    pub open spec fn activity(self) -> ActivityView {
        ActivityView {
            id: Some(ActivityId(stored_id(self.id))),
            owner_account_id: AccountId(stored_id(self.owner_account_id)),
            source_account_id: AccountId(stored_id(self.source_account_id)),
            target_account_id: AccountId(stored_id(self.target_account_id)),
            timestamp: self.timestamp,
            money: Money(self.amount),
        }
    }

    /// The activity that the row stands for. Every row gives one.
    pub fn try_into(self) -> (r: Result<Activity, ActivityBuilderError>)
        ensures
            r matches Ok(activity) && activity@ == self.activity(),
    {
        let mut builder = ActivityBuilder::default();
        builder.id(Some(ActivityId(id_of(self.id))));
        builder.owner_account_id(AccountId(id_of(self.owner_account_id)));
        builder.source_account_id(AccountId(id_of(self.source_account_id)));
        builder.target_account_id(AccountId(id_of(self.target_account_id)));
        builder.timestamp(self.timestamp);
        builder.money(Money(self.amount));
        builder.build()
    }
}

/// The activities that the rows `rows` stand for, in their order.
pub open spec fn activities_of(rows: Seq<ActivityDto>) -> Seq<ActivityView> {
    rows.map_values(|row: ActivityDto| row.activity())
}

/// The balance that the sums of all earlier deposits and withdrawals leave.
/// A sum that the store did not give counts as nothing.
pub open spec fn baseline_of(
    deposit_balance: Option<i64>,
    withdrawal_balance: Option<i64>,
) -> Money {
    Money(deposit_balance.unwrap_or(0)).spec_sub(Money(withdrawal_balance.unwrap_or(0)))
}

/// Puts together the account `account_id` from what the store holds of it:
/// the rows of its activities since the baseline date, and the sums of what
/// left it and what reached it before that date.
pub fn assemble_account(
    account_id: AccountId,
    activities_dto: Vec<ActivityDto>,
    withdrawal_balance: Option<i64>,
    deposit_balance: Option<i64>,
) -> (r: Result<Account, ActivityBuilderError>)
    ensures
        r matches Ok(account) && account@ == (AccountView {
            id: Some(account_id),
            baseline_balance: baseline_of(deposit_balance, withdrawal_balance),
            activities: activities_of(activities_dto@),
        }),
{
    let baseline_balance = Money(deposit_balance.unwrap_or(0)) - Money(
        withdrawal_balance.unwrap_or(0),
    );
    let ghost rows = activities_dto@;
    let mut activities: Vec<Activity> = Vec::new();
    for dto in it: activities_dto
        invariant
            rows == it.seq(),
            views(activities@) == activities_of(rows.take(it.index())),
    {
        let ghost done = it.index();
        let ghost before = activities@;
        match dto.try_into() {
            Ok(activity) => {
                activities.push(activity);
                assert(rows.take(done + 1) =~= rows.take(done).push(dto));
                assert(views(before.push(activity)) =~= views(before).push(activity@));
                assert(activities_of(rows.take(done).push(dto)) =~= activities_of(
                    rows.take(done),
                ).push(dto.activity()));
            },
            Err(e) => {
                return Err(e);
            },
        }
    }
    assert(rows.take(rows.len() as int) =~= rows);
    Ok(Account::new_with_id(account_id, baseline_balance, ActivityWindow::new(activities)))
}

} // verus!
