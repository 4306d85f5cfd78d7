//! The use cases that the application offers.

pub mod port;

use port::input::{HelloWorldUseCase, PingPongUseCase};
use vstd::prelude::*;

verus! {

/// Answers a ping with what it was sent.
#[derive(Debug, Clone, Copy, Default)]
pub struct PingPongUseCaseImpl;

impl PingPongUseCase for PingPongUseCaseImpl {
    fn pong(&self, ping: String) -> (r: String)
        ensures
            r@ == ping@,
    {
        ping
    }
}

/// Greets the world.
#[derive(Debug, Clone, Copy, Default)]
pub struct HelloWorldUseCaseImpl;

impl HelloWorldUseCase for HelloWorldUseCaseImpl {
    fn hello_world(&self) -> (r: String)
        ensures
            r@ == "Hello World!"@,
    {
        "Hello World!".to_owned()
    }
}

} // verus!
