//! What comes in: the commands and the use cases that take them.

mod send_money_usecase;

pub use send_money_usecase::{SendMoneyCommand, SendMoneyUseCase};
use vstd::prelude::*;

verus! {

/// Answers a ping.
pub trait PingPongUseCase {
    fn pong(&self, ping: String) -> String;
}

/// A command that carries a piece of text, which is never empty.
pub struct TestCommand {
    pub data: String,
}

impl TestCommand {
    /// The command that carries `data`. Empty text is refused.
    pub fn try_new(data: String) -> (r: Result<TestCommand, String>)
        ensures
            match r {
                Ok(cmd) => data@.len() > 0 && cmd.data@ == data@,
                Err(reason) => data@.len() == 0 && reason@ == "Must not be empty"@,
            },
    {
        if data.as_str().is_empty() {
            return Err("Must not be empty".to_owned());
        }
        let cmd = TestCommand { data };
        Ok(cmd)
    }
}

/// Greets.
pub trait HelloWorldUseCase {
    fn hello_world(&self) -> String;
}

} // verus!
