//! A host or a worker at work: its service drives its segment manager and the
//! channel, on a system in which any call may fail.

use vstd::prelude::*;
use vstd::utf8::encode_utf8;
use crate::pcube::common::enums::EExitCode;
use crate::pcube::common::exchange::owns;
use crate::pcube::common::exchange::ActionView;
use crate::pcube::common::exchange::EventView;
use crate::pcube::common::exchange::ExchangeState;
use crate::pcube::common::exchange::Phase;
use crate::pcube::common::exchange::Role;
use crate::pcube::common::service_config::ServiceConfigView;
use crate::pcube::common::sizing::best_size;
use crate::pcube::common::sm_calls::StepView;
use crate::pcube::common::exchange_laws::in_protocol;
use crate::pcube::common::sm_laws::lemma_fault_ends_operation;
use crate::pcube::common::sm_model::SegmentState;
use crate::pcube::common::sm_world::run;
use crate::pcube::common::sm_world::Objects;

verus! {

/// One side of the exchange at work: its service, the action that the service
/// asked for last, and its segment manager.
pub struct Party {
    pub service: ExchangeState,
    pub action: ActionView,
    pub manager: SegmentState,
}

/// What the two sides share: the system's shared-memory objects, and the
/// messages of each queue that were sent and not yet received.
pub struct Shared {
    pub objects: Objects,
    pub to_worker: Seq<Seq<char>>,
    pub to_host: Seq<Seq<char>>,
}

/// The outcome of an action that has nothing to report.
pub open spec fn done() -> EventView {
    EventView { code: EExitCode::SUCCESS, text: Seq::empty() }
}

/// The outcome of an action that failed.
pub open spec fn failure() -> EventView {
    EventView { code: EExitCode::FAIL, text: Seq::empty() }
}

/// The outcome of a segment manager's operation as an event for the service.
pub open spec fn event_of(step: StepView) -> EventView {
    match step {
        StepView::Finished(code, text) => EventView { code, text },
        StepView::Call(call) => failure(),
    }
}

/// Carries an operation of the segment manager through. `faults` says which
/// of its calls fail.
pub open spec fn on_segment(shared: Shared, begun: (SegmentState, StepView), faults: Seq<bool>)
    -> Option<(SegmentState, Shared, EventView)> {
    let end = run(begun.0, begun.1, shared.objects, faults);
    Some((end.state, Shared { objects: end.objects, ..shared }, event_of(end.step)))
}

/// Whether an action of the channel fails: the first entry of `faults` says
/// so.
pub open spec fn channel_fails(faults: Seq<bool>) -> bool {
    faults.len() > 0 && faults[0]
}

/// Carries out the action that a party asked for: the manager it has then,
/// what is shared then, and the action's outcome. `None` where there is
/// nothing to carry out: the party has finished, or it waits for a message
/// that was not sent yet.
///
/// The segment's actions are the segment manager's operations, on a system
/// that answers as `serve` does but for the calls that `faults` makes fail.
/// An action of the channel that fails has no effect. Otherwise the channel
/// connects and disconnects without effect, and delivers each message once,
/// in the order of sending.
pub open spec fn carry_out(party: Party, shared: Shared, faults: Seq<bool>) -> Option<
    (SegmentState, Shared, EventView),
> {
    match party.action {
        ActionView::ConnectSegment { name } => on_segment(
            shared,
            party.manager.connect(name),
            faults,
        ),
        ActionView::Write { payload } => on_segment(
            shared,
            party.manager.write(encode_utf8(payload)),
            faults,
        ),
        ActionView::Read { len } => on_segment(shared, party.manager.read(len), faults),
        ActionView::DisconnectSegment { remove } => on_segment(
            shared,
            party.manager.disconnect(remove),
            faults,
        ),
        ActionView::Finish { code } => None,
        ActionView::Receive => {
            let inbox = match party.service.role {
                Role::Host => shared.to_host,
                Role::Worker => shared.to_worker,
            };
            if inbox.len() == 0 {
                None
            } else if channel_fails(faults) {
                Some((party.manager, shared, failure()))
            } else {
                Some(
                    (
                        party.manager,
                        match party.service.role {
                            Role::Host => Shared { to_host: inbox.drop_first(), ..shared },
                            Role::Worker => Shared { to_worker: inbox.drop_first(), ..shared },
                        },
                        EventView { code: EExitCode::SUCCESS, text: inbox[0] },
                    ),
                )
            }
        },
        _ => if channel_fails(faults) {
            Some((party.manager, shared, failure()))
        } else {
            match party.action {
                ActionView::Send { text } => Some(
                    (
                        party.manager,
                        match party.service.role {
                            Role::Host => Shared {
                                to_worker: shared.to_worker.push(text),
                                ..shared
                            },
                            Role::Worker => Shared { to_host: shared.to_host.push(text), ..shared },
                        },
                        done(),
                    ),
                ),
                _ => Some((party.manager, shared, done())),
            }
        },
    }
}

/// One turn of a party: its action is carried out and the service takes the
/// outcome. A party that has finished, or that waits for a message, stays as
/// it is.
pub open spec fn turn(party: Party, shared: Shared, faults: Seq<bool>) -> (Party, Shared) {
    match carry_out(party, shared, faults) {
        Some((manager, shared_then, event)) => {
            let (service, action) = party.service.resume(event);
            (Party { service, action, manager }, shared_then)
        },
        None => (party, shared),
    }
}

/// As many turns of a party as `schedule` has entries, each entry saying what
/// fails in its turn.
pub open spec fn turns(party: Party, shared: Shared, schedule: Seq<Seq<bool>>) -> (Party, Shared)
    decreases schedule.len(),
{
    if schedule.len() == 0 {
        (party, shared)
    } else {
        let (next, shared_then) = turn(party, shared, schedule[0]);
        turns(next, shared_then, schedule.drop_first())
    }
}

/// Whether the schedule has `count` turns, each with an entry for every call
/// that an operation of the segment manager may make.
pub open spec fn scheduled(schedule: Seq<Seq<bool>>, count: nat) -> bool {
    &&& schedule.len() == count
    &&& forall|i: int| 0 <= i < schedule.len() ==> (#[trigger] schedule[i]).len() >= 5
}

/// Whether nothing fails in any turn of the schedule.
pub open spec fn quiet(schedule: Seq<Seq<bool>>) -> bool {
    forall|i: int, j: int|
        0 <= i < schedule.len() && 0 <= j < schedule[i].len() ==> !#[trigger] schedule[i][j]
}

/// A party that begins a run, with a manager that is connected to nothing.
pub open spec fn entering(
    role: Role,
    config: ServiceConfigView,
    outgoing: Seq<char>,
    page_size: nat,
) -> Party {
    let begun = ExchangeState::fresh(role, config, outgoing).run();
    Party { service: begun.0, action: begun.1, manager: SegmentState::fresh(page_size) }
}

/// Whether the object of this name begins with the UTF-8 bytes of `text`, as
/// a write that succeeded leaves it: the object is empty only if the text is,
/// and a `usize` holds the number of those bytes.
pub open spec fn holds(objects: Objects, name: Seq<char>, text: Seq<char>) -> bool {
    let payload = encode_utf8(text);
    &&& objects.dom().contains(name)
    &&& payload.len() <= objects[name].len()
    &&& payload.len() <= usize::MAX
    &&& payload.len() == 0 ==> objects[name].len() == 0
    &&& objects[name].subrange(0, payload.len() as int) == payload
}

/// Whether a segment can hold `text`: rounded to whole pages, the length of
/// its UTF-8 bytes is a `usize`.
pub open spec fn fits(text: Seq<char>, page_size: nat) -> bool {
    best_size(encode_utf8(text).len(), page_size) <= usize::MAX
}

/// Whether the party's run has failed: it cleans up after a failure, or has
/// ended in failure.
pub open spec fn doomed(party: Party) -> bool {
    ||| party.service.phase == Phase::ClosingChannel && party.service.failed
        && party.action is DisconnectChannel
    ||| party.service.phase == Phase::ClosingSegment && party.service.failed
        && party.action is DisconnectSegment
    ||| party.service.phase == Phase::Failed && party.action == (ActionView::Finish {
        code: EExitCode::FAIL,
    })
}

/// Whether the party's run has ended in success.
pub open spec fn through(party: Party) -> bool {
    party.service.phase == Phase::Done && party.action == (ActionView::Finish {
        code: EExitCode::SUCCESS,
    })
}

/// A run that has failed stays failed, whatever follows.
pub proof fn lemma_doomed_stays(party: Party, shared: Shared, schedule: Seq<Seq<bool>>)
    requires
        doomed(party),
    ensures
        doomed(turns(party, shared, schedule).0),
        turns(party, shared, schedule).0.service.config == party.service.config,
        turns(party, shared, schedule).1.to_host == shared.to_host,
        turns(party, shared, schedule).1.to_worker == shared.to_worker,
    decreases schedule.len(),
{
    if schedule.len() > 0 {
        let (next, shared_then) = turn(party, shared, schedule[0]);
        lemma_doomed_stays(next, shared_then, schedule.drop_first());
    }
}

/// The operation of the segment manager that an action of the segment is,
/// begun; `None` for an action of the channel and for the end.
pub open spec fn operation(party: Party) -> Option<(SegmentState, StepView)> {
    match party.action {
        ActionView::ConnectSegment { name } => Some(party.manager.connect(name)),
        ActionView::Write { payload } => Some(party.manager.write(encode_utf8(payload))),
        ActionView::Read { len } => Some(party.manager.read(len)),
        ActionView::DisconnectSegment { remove } => Some(party.manager.disconnect(remove)),
        _ => None,
    }
}

/// A single system call that fails while a run connects or exchanges fails
/// the run, and no further step of the protocol follows: the operation ends
/// at that call, the cleanup begins in the same turn, and the run stays
/// failed whatever comes after.
pub proof fn lemma_failed_call_fails_run(
    party: Party,
    shared: Shared,
    faults: Seq<bool>,
    at: int,
    schedule: Seq<Seq<bool>>,
)
    requires
        party.service.running,
        in_protocol(party.service.phase),
        party.action is ConnectSegment || party.action is Write || party.action is Read,
        0 <= at < faults.len(),
        faults[at],
        forall|i: int| 0 <= i < at ==> !#[trigger] faults[i],
        ({
            let begun = operation(party).unwrap();
            run(begun.0, begun.1, shared.objects, faults).calls.len() == at + 1
        }),
    ensures
        ({
            let (next, shared_then) = turn(party, shared, faults);
            &&& doomed(next)
            &&& next.action == ActionView::DisconnectChannel {
                remove: owns(party.service.role),
            }
            &&& doomed(turns(next, shared_then, schedule).0)
        }),
{
    let begun = operation(party).unwrap();
    match begun.1 {
        StepView::Call(call) => {
            lemma_fault_ends_operation(begun.0, call, shared.objects, faults, at);
        },
        StepView::Finished(code, text) => {
            reveal_with_fuel(run, 1);
        },
    }
    let (next, shared_then) = turn(party, shared, faults);
    lemma_doomed_stays(next, shared_then, schedule);
}

/// An action of the channel that fails while a run connects or exchanges
/// fails the run in the same way.
pub proof fn lemma_failed_signal_fails_run(
    party: Party,
    shared: Shared,
    faults: Seq<bool>,
    schedule: Seq<Seq<bool>>,
)
    requires
        party.service.running,
        in_protocol(party.service.phase),
        party.action is ConnectChannel || party.action is Send || party.action is Receive,
        channel_fails(faults),
        carry_out(party, shared, faults) is Some,
    ensures
        ({
            let (next, shared_then) = turn(party, shared, faults);
            &&& doomed(next)
            &&& next.action == ActionView::DisconnectChannel {
                remove: owns(party.service.role),
            }
            &&& shared_then == shared
            &&& doomed(turns(next, shared_then, schedule).0)
        }),
{
    let (next, shared_then) = turn(party, shared, faults);
    lemma_doomed_stays(next, shared_then, schedule);
}

} // verus!
