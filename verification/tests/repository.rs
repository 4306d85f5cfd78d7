use rocket_hexagonal::adapter::output::account_repository::{assemble_account, ActivityDto};
use rocket_hexagonal::domain::account::AccountId;
use rocket_hexagonal::domain::activity::ActivityId;
use rocket_hexagonal::domain::money::Money;
use rocket_hexagonal::domain::timestamp::Timestamp;

fn row(id: i64, owner: i64, source: i64, target: i64, amount: i64) -> ActivityDto {
    ActivityDto {
        id,
        timestamp: Timestamp::new(1_533_859_200 + id, 0),
        owner_account_id: owner,
        source_account_id: source,
        target_account_id: target,
        amount,
    }
}

#[test]
fn row_becomes_a_stored_activity() {
    let activity = ActivityDto {
        id: 12,
        timestamp: Timestamp::new(1_533_859_200, 25),
        owner_account_id: 1,
        source_account_id: 2,
        target_account_id: 3,
        amount: -40,
    }
    .try_into()
    .unwrap();
    assert_eq!(activity.id(), Some(&ActivityId(12)));
    assert_eq!(*activity.owner_account_id(), AccountId(1));
    assert_eq!(*activity.source_account_id(), AccountId(2));
    assert_eq!(*activity.target_account_id(), AccountId(3));
    assert_eq!(*activity.timestamp(), Timestamp::new(1_533_859_200, 25));
    assert_eq!(*activity.money(), Money(-40));
}

#[test]
fn negative_stored_ids_count_from_the_top() {
    let activity = row(-1, -2, i64::MIN, i64::MAX, 1).try_into().unwrap();
    assert_eq!(activity.id(), Some(&ActivityId(u64::MAX)));
    assert_eq!(*activity.owner_account_id(), AccountId(u64::MAX - 1));
    assert_eq!(*activity.source_account_id(), AccountId(1 << 63));
    assert_eq!(*activity.target_account_id(), AccountId((1 << 63) - 1));
}

#[test]
fn assembled_account_has_baseline_and_window() {
    let account = assemble_account(
        AccountId(1),
        vec![row(5, 1, 1, 2, 500), row(7, 1, 2, 1, 1000)],
        Some(500),
        Some(500),
    )
    .unwrap();
    assert_eq!(account.id(), Some(&AccountId(1)));
    assert_eq!(*account.baseline_balance(), Money(0));
    let held = account.activity_window().activities();
    assert_eq!(held.len(), 2);
    assert_eq!(held[0].id(), Some(&ActivityId(5)));
    assert_eq!(*held[0].money(), Money(500));
    assert_eq!(held[1].id(), Some(&ActivityId(7)));
    assert_eq!(*held[1].money(), Money(1000));
    assert_eq!(account.calculate_balance(), Money(500));
}

#[test]
fn assembled_baseline_is_deposits_less_withdrawals() {
    let account = assemble_account(AccountId(1), vec![], Some(300), Some(1000)).unwrap();
    assert_eq!(*account.baseline_balance(), Money(700));
    assert!(account.activity_window().activities().is_empty());
    assert_eq!(account.calculate_balance(), Money(700));
}

#[test]
fn missing_sums_count_as_nothing() {
    let none = assemble_account(AccountId(1), vec![], None, None).unwrap();
    assert_eq!(*none.baseline_balance(), Money(0));
    let only_withdrawals = assemble_account(AccountId(1), vec![], Some(40), None).unwrap();
    assert_eq!(*only_withdrawals.baseline_balance(), Money(-40));
    let only_deposits = assemble_account(AccountId(1), vec![], None, Some(40)).unwrap();
    assert_eq!(*only_deposits.baseline_balance(), Money(40));
}

#[test]
fn assembled_baseline_saturates() {
    let account = assemble_account(AccountId(1), vec![], Some(i64::MIN), Some(i64::MAX)).unwrap();
    assert_eq!(*account.baseline_balance(), Money(i64::MAX));
}
