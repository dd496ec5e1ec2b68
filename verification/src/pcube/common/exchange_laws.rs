//! What holds of a service whatever the outcomes of its actions are: a failure
//! ends the protocol at once, and the cleanup does not change the result.

use vstd::prelude::*;
use crate::pcube::common::enums::EExitCode;
use crate::pcube::common::exchange::owns;
use crate::pcube::common::exchange::ActionView;
use crate::pcube::common::exchange::EventView;
use crate::pcube::common::exchange::ExchangeState;
use crate::pcube::common::exchange::Phase;
use crate::pcube::common::exchange::Role;
use crate::pcube::common::signal::signalled_length;

verus! {

/// Whether the service is connecting or exchanging: an action of the
/// protocol itself is in progress, not one of the cleanup.
pub open spec fn in_protocol(phase: Phase) -> bool {
    phase == Phase::ConnectingSegment || phase == Phase::ConnectingChannel || phase
        == Phase::Writing || phase == Phase::Signalling || phase == Phase::Waiting || phase
        == Phase::Reading
}

/// Whether the action is one of the protocol's own steps, as opposed to the
/// cleanup and the end.
pub open spec fn protocol_step(action: ActionView) -> bool {
    action is ConnectSegment || action is ConnectChannel || action is Write || action is Send
        || action is Receive || action is Read
}

/// An action of a run that fails is followed by no further step of the
/// protocol: the cleanup begins at once, it goes on whatever its own two
/// outcomes are, and the run then ends in failure.
pub proof fn lemma_run_fails_fast(
    state: ExchangeState,
    failure: EventView,
    first: EventView,
    second: EventView,
)
    requires
        in_protocol(state.phase),
        state.running,
        failure.code == EExitCode::FAIL,
    ensures
        ({
            let (closing_channel, channel_action) = state.resume(failure);
            let (closing_segment, segment_action) = closing_channel.resume(first);
            let (ended, last_action) = closing_segment.resume(second);
            &&& !protocol_step(channel_action)
            &&& channel_action == ActionView::DisconnectChannel { remove: owns(state.role) }
            &&& segment_action == ActionView::DisconnectSegment { remove: owns(state.role) }
            &&& last_action == ActionView::Finish { code: EExitCode::FAIL }
            &&& ended.phase == Phase::Failed
            &&& !ended.listening
        }),
{
}

/// A connect on its own that fails ends at once in failure: the channel is
/// not tried after the segment has failed.
pub proof fn lemma_start_fails_fast(state: ExchangeState, failure: EventView)
    requires
        state.phase == Phase::ConnectingSegment || state.phase == Phase::ConnectingChannel,
        !state.running,
        failure.code == EExitCode::FAIL,
    ensures
        state.resume(failure) == (
            state.at(Phase::Failed),
            ActionView::Finish { code: EExitCode::FAIL },
        ),
{
}

/// A signal that carries no length fails the run like an action that failed.
pub proof fn lemma_bad_signal_fails(state: ExchangeState, event: EventView)
    requires
        state.phase == Phase::Waiting,
        signalled_length(event.text) is None,
    ensures
        state.resume(event) == state.handle_run_error(),
{
}

/// The cleanup does not change the result: whatever its two outcomes are, it
/// ends with the result that was decided when it began.
pub proof fn lemma_cleanup_keeps_result(
    state: ExchangeState,
    failed: bool,
    first: EventView,
    second: EventView,
)
    ensures
        ({
            let (closing_channel, channel_action) = state.closing(failed);
            let (closing_segment, segment_action) = closing_channel.resume(first);
            let (ended, last_action) = closing_segment.resume(second);
            &&& channel_action == ActionView::DisconnectChannel { remove: owns(state.role) }
            &&& segment_action == ActionView::DisconnectSegment { remove: owns(state.role) }
            &&& last_action == ActionView::Finish {
                code: if failed {
                    EExitCode::FAIL
                } else {
                    EExitCode::SUCCESS
                },
            }
            &&& ended.phase == if failed {
                Phase::Failed
            } else {
                Phase::Done
            }
        }),
{
}

/// Whether the action, if it is a disconnect, removes exactly if `role` owns
/// the shared objects.
pub open spec fn removes_as(action: ActionView, role: Role) -> bool {
    match action {
        ActionView::DisconnectChannel { remove } => remove == owns(role),
        ActionView::DisconnectSegment { remove } => remove == owns(role),
        _ => true,
    }
}

/// Only the host removes the shared objects: whatever a service is
/// configured with, wherever it stands and whatever happened, a disconnect
/// that it asks for removes exactly if the service is a host.
pub proof fn lemma_only_host_removes(state: ExchangeState, event: EventView)
    ensures
        removes_as(state.start_listener().1, state.role),
        removes_as(state.run().1, state.role),
        removes_as(state.stop_listener().1, state.role),
        removes_as(state.handle_run_error().1, state.role),
        removes_as(state.resume(event).1, state.role),
{
}

} // verus!
