use rocket_hexagonal::application::port::input::{
    HelloWorldUseCase, PingPongUseCase, SendMoneyCommand, TestCommand,
};
use rocket_hexagonal::application::{HelloWorldUseCaseImpl, PingPongUseCaseImpl};
use rocket_hexagonal::domain::account::AccountId;
use rocket_hexagonal::domain::money::Money;

#[test]
fn test_command_refuses_empty_text() {
    match TestCommand::try_new(String::new()) {
        Err(reason) => assert_eq!(reason, "Must not be empty"),
        Ok(_) => panic!("empty text was accepted"),
    }
}

#[test]
fn test_command_keeps_its_text() {
    let cmd = TestCommand::try_new("ping".to_string()).unwrap();
    assert_eq!(cmd.data, "ping");
    let blank = TestCommand::try_new(" ".to_string()).unwrap();
    assert_eq!(blank.data, " ");
}

#[test]
fn send_money_command_keeps_its_fields() {
    let cmd = SendMoneyCommand::try_new(AccountId(1), AccountId(2), Money(300)).unwrap();
    assert_eq!(*cmd.source_account_id(), AccountId(1));
    assert_eq!(*cmd.target_account_id(), AccountId(2));
    assert_eq!(*cmd.money(), Money(300));
}

#[test]
fn send_money_command_accepts_any_fields() {
    let cmd = SendMoneyCommand::try_new(AccountId(7), AccountId(7), Money(-1)).unwrap();
    assert_eq!(*cmd.source_account_id(), AccountId(7));
    assert_eq!(*cmd.target_account_id(), AccountId(7));
    assert_eq!(*cmd.money(), Money(-1));
}

#[test]
fn pong_answers_with_the_ping() {
    assert_eq!(PingPongUseCaseImpl.pong("hello".to_string()), "hello");
    assert_eq!(PingPongUseCaseImpl.pong(String::new()), "");
}

#[test]
fn hello_world_greets() {
    assert_eq!(HelloWorldUseCaseImpl.hello_world(), "Hello World!");
}
