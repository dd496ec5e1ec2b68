//! The worker's side of the exchange.

use vstd::prelude::*;
use crate::pcube::common::exchange::Action;
use crate::pcube::common::exchange::Event;
use crate::pcube::common::exchange::Exchange;
use crate::pcube::common::exchange::ExchangeState;
use crate::pcube::common::exchange::Phase;
use crate::pcube::common::exchange::Role;
use crate::pcube::common::service_config::ServiceConfig;

verus! {

/// The worker's side of the exchange: it waits for the host's signal, reads
/// the request from the segment, writes the request with the marker appended
/// back into it and signals the length of that response.
///
/// The service makes no call itself. `run` returns the first action; the
/// caller carries each action out and hands its outcome to `resume`, until the
/// action is `Finish`.
pub struct Service {
    exchange: Exchange,
}

impl View for Service {
    type V = ExchangeState;

    closed spec fn view(&self) -> ExchangeState {
        self.exchange@
    }
}

impl Service {
    /// A worker that has begun nothing.
    pub fn new(service_config: ServiceConfig) -> (service: Self)
        ensures
            service@ == ExchangeState::fresh(Role::Worker, service_config@, Seq::empty()),
    {
        Service { exchange: Exchange::new(Role::Worker, service_config, String::new()) }
    }

    /// Begins connecting on its own: the segment, then the channel, neither
    /// being tried once the other has failed.
    pub fn start_listener(&mut self) -> (action: Action)
        ensures
            (final(self)@, action@) == old(self)@.start_listener(),
    {
        self.exchange.start_listener()
    }

    /// Begins the cleanup on its own: the channel is disconnected, then the
    /// segment, neither with removal, the worker not being the side that owns
    /// the shared objects. It ends in success.
    pub fn stop_listener(&mut self) -> (action: Action)
        ensures
            (final(self)@, action@) == old(self)@.stop_listener(),
    {
        self.exchange.stop_listener()
    }

    /// Begins the cleanup after a failure. It ends in failure, whatever the
    /// cleanup's own outcomes are.
    pub fn handle_run_error(&mut self) -> (action: Action)
        ensures
            (final(self)@, action@) == old(self)@.handle_run_error(),
    {
        self.exchange.handle_run_error()
    }

    /// Begins a run: connecting, one round trip, and the cleanup.
    pub fn run(&mut self) -> (action: Action)
        ensures
            (final(self)@, action@) == old(self)@.run(),
    {
        self.exchange.run()
    }

    /// Takes the outcome of the action that was asked for last, and returns
    /// the next action.
    pub fn resume(&mut self, event: Event) -> (action: Action)
        ensures
            (final(self)@, action@) == old(self)@.resume(event@),
    {
        self.exchange.resume(event)
    }

    /// The phase that the worker is in.
    pub fn phase(&self) -> (phase: Phase)
        ensures
            phase == self@.phase,
    {
        self.exchange.phase()
    }

    /// Whether the worker was started and not stopped since.
    pub fn is_listening(&self) -> (listening: bool)
        ensures
            listening == self@.listening,
    {
        self.exchange.is_listening()
    }

    /// The request that the worker read, empty before it read one.
    pub fn request(&self) -> (payload: &str)
        ensures
            payload@ == self@.incoming,
    {
        self.exchange.incoming()
    }

    /// The response that the worker wrote, empty before it read a request.
    pub fn response(&self) -> (payload: &str)
        ensures
            payload@ == self@.outgoing,
    {
        self.exchange.outgoing()
    }
}

} // verus!
