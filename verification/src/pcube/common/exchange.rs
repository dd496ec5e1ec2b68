//! The protocol of one exchange: the actions that a service asks for, their
//! outcomes, and the machine that both roles are.

use vstd::prelude::*;
use vstd::string::StringExecFns;
use vstd::utf8::encode_utf8;
use crate::pcube::common::enums::EExitCode;
use crate::pcube::common::service_config::ServiceConfig;
use crate::pcube::common::service_config::ServiceConfigView;
use crate::pcube::common::signal::decimal_text;
use crate::pcube::common::signal::length_text;
use crate::pcube::common::signal::parse_length;
use crate::pcube::common::signal::signalled_length;

verus! {

/// An operation that a service asks its caller to carry out, on the segment
/// manager or on the signal channel.
#[derive(Debug)]
pub enum Action {
    /// Connect the segment manager under this name.
    ConnectSegment { name: String },
    /// Connect the signal channel to these two queues.
    ConnectChannel { host_queue: String, worker_queue: String },
    /// Write this payload into the segment.
    Write { payload: String },
    /// Send this text over the channel and wait until it is delivered.
    Send { text: String },
    /// Wait for the next message of the channel.
    Receive,
    /// Read this many bytes from the segment.
    Read { len: usize },
    /// Disconnect the channel, and remove its queues if `remove` is set.
    DisconnectChannel { remove: bool },
    /// Disconnect the segment manager, and remove the object if `remove` is
    /// set.
    DisconnectSegment { remove: bool },
    /// Nothing more: the work has ended with this code.
    Finish { code: EExitCode },
}

/// An `Action` as a mathematical value.
pub enum ActionView {
    ConnectSegment { name: Seq<char> },
    ConnectChannel { host_queue: Seq<char>, worker_queue: Seq<char> },
    Write { payload: Seq<char> },
    Send { text: Seq<char> },
    Receive,
    Read { len: nat },
    DisconnectChannel { remove: bool },
    DisconnectSegment { remove: bool },
    Finish { code: EExitCode },
}

impl View for Action {
    type V = ActionView;

    open spec fn view(&self) -> ActionView {
        match *self {
            Action::ConnectSegment { name } => ActionView::ConnectSegment { name: name@ },
            Action::ConnectChannel { host_queue, worker_queue } => ActionView::ConnectChannel {
                host_queue: host_queue@,
                worker_queue: worker_queue@,
            },
            Action::Write { payload } => ActionView::Write { payload: payload@ },
            Action::Send { text } => ActionView::Send { text: text@ },
            Action::Receive => ActionView::Receive,
            Action::Read { len } => ActionView::Read { len: len as nat },
            Action::DisconnectChannel { remove } => ActionView::DisconnectChannel { remove },
            Action::DisconnectSegment { remove } => ActionView::DisconnectSegment { remove },
            Action::Finish { code } => ActionView::Finish { code },
        }
    }
}

/// How an `Action` ended: its code, and the text it brought, which is the
/// message after `Receive`, the payload after `Read`, and of no account after
/// any other.
#[derive(Debug)]
pub struct Event {
    pub code: EExitCode,
    pub text: String,
}

/// An `Event` as a mathematical value.
pub struct EventView {
    pub code: EExitCode,
    pub text: Seq<char>,
}

impl View for Event {
    type V = EventView;

    open spec fn view(&self) -> EventView {
        EventView { code: self.code, text: self.text@ }
    }
}

/// Which side of the exchange a service plays.
#[derive(Clone, Copy, Debug, PartialEq, Eq, Structural)]
pub enum Role {
    /// Writes the request first, then waits for the response.
    Host,
    /// Waits for the request first, then writes the response.
    Worker,
}

/// Where a service stands.
///
/// The two `Connecting` phases are the service connecting; `Writing`,
/// `Signalling`, `Waiting` and `Reading` are the service exchanging; in the two
/// `Closing` phases the result is decided and the service cleans up.
#[derive(Clone, Copy, Debug, PartialEq, Eq, Structural)]
pub enum Phase {
    /// Nothing was begun yet.
    Idle,
    /// The segment manager is connecting.
    ConnectingSegment,
    /// The signal channel is connecting.
    ConnectingChannel,
    /// Both are connected, and no exchange was asked for.
    Connected,
    /// The payload is being written into the segment.
    Writing,
    /// The payload's byte length is being sent.
    Signalling,
    /// The peer's signal is waited for.
    Waiting,
    /// The peer's payload is being read from the segment.
    Reading,
    /// The signal channel is disconnecting.
    ClosingChannel,
    /// The segment manager is disconnecting.
    ClosingSegment,
    /// The work ended in success.
    Done,
    /// The work ended in failure.
    Failed,
}

/// A service as a mathematical value.
pub struct ExchangeState {
    pub role: Role,
    pub config: ServiceConfigView,
    /// Set by `start_listener`, cleared by `stop_listener`.
    pub listening: bool,
    pub phase: Phase,
    /// Whether the exchange follows once both sides are connected.
    pub running: bool,
    /// Whether the result is failure, which counts once cleanup has begun.
    pub failed: bool,
    /// The payload that this side writes: the host's request, the worker's
    /// response.
    pub outgoing: Seq<char>,
    /// The payload that this side read.
    pub incoming: Seq<char>,
}

/// Whether a side of this role owns the shared objects, and so removes them
/// when it disconnects: the host does, the worker does not.
pub open spec fn owns(role: Role) -> bool {
    role == Role::Host
}

/// The marker that the worker appends to the request.
pub open spec fn marker() -> Seq<char> {
    " processed"@
}

/// The worker's response to a request: the request with the marker appended.
pub open spec fn response_to(request: Seq<char>) -> Seq<char> {
    request + marker()
}

/// The text that signals a payload: the decimal length of its UTF-8 bytes.
pub open spec fn signal_for(payload: Seq<char>) -> Seq<char> {
    decimal_text(encode_utf8(payload).len())
}

impl ExchangeState {
    /// A service that has begun nothing.
    pub open spec fn fresh(role: Role, config: ServiceConfigView, outgoing: Seq<char>) -> Self {
        ExchangeState {
            role,
            config,
            listening: false,
            phase: Phase::Idle,
            running: false,
            failed: false,
            outgoing,
            incoming: Seq::empty(),
        }
    }

    /// The same service in another phase.
    pub open spec fn at(self, phase: Phase) -> Self {
        ExchangeState { phase, ..self }
    }

    /// Begins connecting, the segment first.
    pub open spec fn connecting(self, running: bool) -> (Self, ActionView) {
        (
            ExchangeState {
                listening: true,
                running,
                failed: false,
                phase: Phase::ConnectingSegment,
                ..self
            },
            ActionView::ConnectSegment { name: self.config.sm_name },
        )
    }

    /// Begins the cleanup, the channel first, with the result decided.
    pub open spec fn closing(self, failed: bool) -> (Self, ActionView) {
        (
            ExchangeState { listening: false, failed, phase: Phase::ClosingChannel, ..self },
            ActionView::DisconnectChannel { remove: owns(self.role) },
        )
    }

    /// Begins connecting on its own: once both sides are connected, nothing
    /// follows.
    pub open spec fn start_listener(self) -> (Self, ActionView) {
        self.connecting(false)
    }

    /// Begins the cleanup on its own, which ends in success.
    pub open spec fn stop_listener(self) -> (Self, ActionView) {
        self.closing(false)
    }

    /// Begins the cleanup after a failure, which ends in failure.
    pub open spec fn handle_run_error(self) -> (Self, ActionView) {
        self.closing(true)
    }

    /// Begins a run: connecting, then one exchange, then the cleanup.
    pub open spec fn run(self) -> (Self, ActionView) {
        self.connecting(true)
    }

    /// A connect failed: within a run the cleanup follows, and on its own the
    /// failure is reported at once.
    pub open spec fn start_failed(self) -> (Self, ActionView) {
        if self.running {
            self.handle_run_error()
        } else {
            (self.at(Phase::Failed), ActionView::Finish { code: EExitCode::FAIL })
        }
    }

    /// Both sides are connected: within a run the exchange begins, the host
    /// writing its request and the worker waiting for one.
    pub open spec fn started(self) -> (Self, ActionView) {
        if !self.running {
            (self.at(Phase::Connected), ActionView::Finish { code: EExitCode::SUCCESS })
        } else {
            match self.role {
                Role::Host => (
                    self.at(Phase::Writing),
                    ActionView::Write { payload: self.outgoing },
                ),
                Role::Worker => (self.at(Phase::Waiting), ActionView::Receive),
            }
        }
    }

    /// The peer's payload was read: the host is through, and the worker
    /// writes its response.
    pub open spec fn payload_read(self, text: Seq<char>) -> (Self, ActionView) {
        match self.role {
            Role::Host => ExchangeState { incoming: text, ..self }.stop_listener(),
            Role::Worker => (
                ExchangeState {
                    incoming: text,
                    outgoing: response_to(text),
                    phase: Phase::Writing,
                    ..self
                },
                ActionView::Write { payload: response_to(text) },
            ),
        }
    }

    /// The payload was signalled: the host waits for the response, and the
    /// worker is through.
    pub open spec fn signalled(self) -> (Self, ActionView) {
        match self.role {
            Role::Host => (self.at(Phase::Waiting), ActionView::Receive),
            Role::Worker => self.stop_listener(),
        }
    }

    /// Takes the outcome of the action that was asked for last, and says what
    /// follows.
    ///
    /// While the service connects or exchanges, an action that failed is
    /// followed by no further step of the protocol. The cleanup goes on
    /// whatever its outcomes are, and does not change the result.
    pub open spec fn resume(self, event: EventView) -> (Self, ActionView) {
        let ok = event.code == EExitCode::SUCCESS;
        match self.phase {
            Phase::ConnectingSegment => if ok {
                (
                    self.at(Phase::ConnectingChannel),
                    ActionView::ConnectChannel {
                        host_queue: self.config.q_name_host,
                        worker_queue: self.config.q_name_worker,
                    },
                )
            } else {
                self.start_failed()
            },
            Phase::ConnectingChannel => if ok {
                self.started()
            } else {
                self.start_failed()
            },
            Phase::Writing => if ok {
                (
                    self.at(Phase::Signalling),
                    ActionView::Send { text: signal_for(self.outgoing) },
                )
            } else {
                self.handle_run_error()
            },
            Phase::Signalling => if ok {
                self.signalled()
            } else {
                self.handle_run_error()
            },
            Phase::Waiting => match signalled_length(event.text) {
                Some(len) if ok => (
                    self.at(Phase::Reading),
                    ActionView::Read { len: len as nat },
                ),
                _ => self.handle_run_error(),
            },
            Phase::Reading => if ok {
                self.payload_read(event.text)
            } else {
                self.handle_run_error()
            },
            Phase::ClosingChannel => (
                self.at(Phase::ClosingSegment),
                ActionView::DisconnectSegment { remove: owns(self.role) },
            ),
            Phase::ClosingSegment => if self.failed {
                (self.at(Phase::Failed), ActionView::Finish { code: EExitCode::FAIL })
            } else {
                (self.at(Phase::Done), ActionView::Finish { code: EExitCode::SUCCESS })
            },
            _ => (self, ActionView::Finish { code: EExitCode::FAIL }),
        }
    }
}

/// The worker's response to a request.
pub fn respond(request: &str) -> (response: String)
    ensures
        response@ == response_to(request@),
{
    String::from_str(request).concat(" processed")
}

/// The machine that both services are: it makes no call itself, asks for one
/// action at a time and takes its outcome back.
pub struct Exchange {
    role: Role,
    config: ServiceConfig,
    listening: bool,
    phase: Phase,
    running: bool,
    failed: bool,
    outgoing: String,
    incoming: String,
}

impl View for Exchange {
    type V = ExchangeState;

    closed spec fn view(&self) -> ExchangeState {
        ExchangeState {
            role: self.role,
            config: self.config@,
            listening: self.listening,
            phase: self.phase,
            running: self.running,
            failed: self.failed,
            outgoing: self.outgoing@,
            incoming: self.incoming@,
        }
    }
}

impl Exchange {
    /// A service of this role that has begun nothing and will write
    /// `outgoing`.
    pub fn new(role: Role, config: ServiceConfig, outgoing: String) -> (exchange: Self)
        ensures
            exchange@ == ExchangeState::fresh(role, config@, outgoing@),
    {
        Exchange {
            role,
            config,
            listening: false,
            phase: Phase::Idle,
            running: false,
            failed: false,
            outgoing,
            incoming: String::new(),
        }
    }

    /// The phase that the service is in.
    pub fn phase(&self) -> (phase: Phase)
        ensures
            phase == self@.phase,
    {
        self.phase
    }

    /// Whether the service was started and not stopped since.
    pub fn is_listening(&self) -> (listening: bool)
        ensures
            listening == self@.listening,
    {
        self.listening
    }

    /// The payload that this side writes.
    pub fn outgoing(&self) -> (payload: &str)
        ensures
            payload@ == self@.outgoing,
    {
        self.outgoing.as_str()
    }

    /// The payload that this side read, empty before it read one.
    pub fn incoming(&self) -> (payload: &str)
        ensures
            payload@ == self@.incoming,
    {
        self.incoming.as_str()
    }

    fn connecting(&mut self, running: bool) -> (action: Action)
        ensures
            (final(self)@, action@) == old(self)@.connecting(running),
    {
        self.listening = true;
        self.running = running;
        self.failed = false;
        self.phase = Phase::ConnectingSegment;
        Action::ConnectSegment { name: self.config.sm_name.clone() }
    }

    fn closing(&mut self, failed: bool) -> (action: Action)
        ensures
            (final(self)@, action@) == old(self)@.closing(failed),
    {
        self.listening = false;
        self.failed = failed;
        self.phase = Phase::ClosingChannel;
        Action::DisconnectChannel { remove: self.role == Role::Host }
    }

    /// Begins connecting on its own: the segment, then the channel.
    pub fn start_listener(&mut self) -> (action: Action)
        ensures
            (final(self)@, action@) == old(self)@.start_listener(),
    {
        self.connecting(false)
    }

    /// Begins the cleanup on its own: the channel, then the segment.
    pub fn stop_listener(&mut self) -> (action: Action)
        ensures
            (final(self)@, action@) == old(self)@.stop_listener(),
    {
        self.closing(false)
    }

    /// Begins the cleanup after a failure.
    pub fn handle_run_error(&mut self) -> (action: Action)
        ensures
            (final(self)@, action@) == old(self)@.handle_run_error(),
    {
        self.closing(true)
    }

    /// Begins a run.
    pub fn run(&mut self) -> (action: Action)
        ensures
            (final(self)@, action@) == old(self)@.run(),
    {
        self.connecting(true)
    }

    fn start_failed(&mut self) -> (action: Action)
        ensures
            (final(self)@, action@) == old(self)@.start_failed(),
    {
        if self.running {
            self.handle_run_error()
        } else {
            self.phase = Phase::Failed;
            Action::Finish { code: EExitCode::FAIL }
        }
    }

    fn started(&mut self) -> (action: Action)
        ensures
            (final(self)@, action@) == old(self)@.started(),
    {
        if !self.running {
            self.phase = Phase::Connected;
            Action::Finish { code: EExitCode::SUCCESS }
        } else {
            match self.role {
                Role::Host => {
                    self.phase = Phase::Writing;
                    Action::Write { payload: self.outgoing.clone() }
                },
                Role::Worker => {
                    self.phase = Phase::Waiting;
                    Action::Receive
                },
            }
        }
    }

    fn payload_read(&mut self, text: String) -> (action: Action)
        ensures
            (final(self)@, action@) == old(self)@.payload_read(text@),
    {
        match self.role {
            Role::Host => {
                self.incoming = text;
                self.stop_listener()
            },
            Role::Worker => {
                let response = respond(text.as_str());
                self.outgoing = response.clone();
                self.incoming = text;
                self.phase = Phase::Writing;
                Action::Write { payload: response }
            },
        }
    }

    fn signalled(&mut self) -> (action: Action)
        ensures
            (final(self)@, action@) == old(self)@.signalled(),
    {
        match self.role {
            Role::Host => {
                self.phase = Phase::Waiting;
                Action::Receive
            },
            Role::Worker => self.stop_listener(),
        }
    }

    /// Takes the outcome of the action that was asked for last, and returns
    /// the next action.
    pub fn resume(&mut self, event: Event) -> (action: Action)
        ensures
            (final(self)@, action@) == old(self)@.resume(event@),
    {
        let ok = event.code == EExitCode::SUCCESS;
        match self.phase {
            Phase::ConnectingSegment => {
                if ok {
                    self.phase = Phase::ConnectingChannel;
                    Action::ConnectChannel {
                        host_queue: self.config.q_name_host.clone(),
                        worker_queue: self.config.q_name_worker.clone(),
                    }
                } else {
                    self.start_failed()
                }
            },
            Phase::ConnectingChannel => {
                if ok {
                    self.started()
                } else {
                    self.start_failed()
                }
            },
            Phase::Writing => {
                if ok {
                    let len = self.outgoing.as_str().as_bytes().len();
                    self.phase = Phase::Signalling;
                    Action::Send { text: length_text(len) }
                } else {
                    self.handle_run_error()
                }
            },
            Phase::Signalling => {
                if ok {
                    self.signalled()
                } else {
                    self.handle_run_error()
                }
            },
            Phase::Waiting => {
                match parse_length(event.text.as_str()) {
                    Some(len) => {
                        if ok {
                            self.phase = Phase::Reading;
                            Action::Read { len }
                        } else {
                            self.handle_run_error()
                        }
                    },
                    None => self.handle_run_error(),
                }
            },
            Phase::Reading => {
                if ok {
                    self.payload_read(event.text)
                } else {
                    self.handle_run_error()
                }
            },
            Phase::ClosingChannel => {
                self.phase = Phase::ClosingSegment;
                Action::DisconnectSegment { remove: self.role == Role::Host }
            },
            Phase::ClosingSegment => {
                if self.failed {
                    self.phase = Phase::Failed;
                    Action::Finish { code: EExitCode::FAIL }
                } else {
                    self.phase = Phase::Done;
                    Action::Finish { code: EExitCode::SUCCESS }
                }
            },
            _ => Action::Finish { code: EExitCode::FAIL },
        }
    }
}

} // verus!
