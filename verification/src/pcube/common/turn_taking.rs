//! Host and worker side by side, moving in any order: they take turns at the
//! segment, and what the host reads is the worker's response to its request.

use vstd::prelude::*;
use vstd::utf8::encode_utf8;
use vstd::utf8::encode_utf8_decode_utf8;
use vstd::utf8::encode_utf8_valid_utf8;
use crate::pcube::common::enums::EExitCode;
use crate::pcube::common::exchange::response_to;
use crate::pcube::common::exchange::signal_for;
use crate::pcube::common::exchange::ActionView;
use crate::pcube::common::exchange::Phase;
use crate::pcube::common::exchange::Role;
use crate::pcube::common::signal::lemma_signal_round_trip;
use crate::pcube::common::sizing::lemma_best_size_bounds;
use crate::pcube::common::sizing::lemma_best_size_closed_form;
use crate::pcube::common::sm_laws::lemma_connect_runs;
use crate::pcube::common::sm_laws::lemma_disconnect_runs;
use crate::pcube::common::sm_laws::lemma_read_runs;
use crate::pcube::common::sm_laws::lemma_write_runs;
use crate::pcube::common::sm_world::attached_to;
use crate::pcube::common::service_config::ServiceConfigView;
use crate::pcube::common::sm_world::Objects;
use crate::pcube::common::system::doomed;
use crate::pcube::common::system::entering;
use crate::pcube::common::system::holds;
use crate::pcube::common::system::turn;
use crate::pcube::common::system::Party;
use crate::pcube::common::system::Shared;

verus! {

/// A host, a worker, and what they share.
pub struct Pair {
    pub host: Party,
    pub worker: Party,
    pub shared: Shared,
}

/// One turn of one side: whose it is, and what fails in it.
pub struct Move {
    pub of_host: bool,
    pub faults: Seq<bool>,
}

/// The pair after a move.
pub open spec fn moved(pair: Pair, next: Move) -> Pair {
    if next.of_host {
        let (host, shared) = turn(pair.host, pair.shared, next.faults);
        Pair { host, shared, ..pair }
    } else {
        let (worker, shared) = turn(pair.worker, pair.shared, next.faults);
        Pair { worker, shared, ..pair }
    }
}

/// The pair after these moves, in their order.
pub open spec fn played(pair: Pair, moves: Seq<Move>) -> Pair
    decreases moves.len(),
{
    if moves.len() == 0 {
        pair
    } else {
        played(moved(pair, moves[0]), moves.drop_first())
    }
}

/// Whether every move has an entry for every call that an operation of the
/// segment manager may make.
pub open spec fn playable(moves: Seq<Move>) -> bool {
    forall|i: int| 0 <= i < moves.len() ==> (#[trigger] moves[i]).faults.len() >= 5
}

/// Whether the party touches the bytes of the segment in its next turn.
pub open spec fn touches(party: Party) -> bool {
    party.action is Write || party.action is Read
}

/// What holds of a host in a run that has not failed, by its phase.
pub open spec fn host_in_run(host: Party, request: Seq<char>) -> bool {
    let service = host.service;
    let response = response_to(request);
    &&& service.role == Role::Host
    &&& service.running
    &&& service.outgoing == request
    &&& host.manager.page_size > 0
    &&& match service.phase {
        Phase::ConnectingSegment => host.action == (ActionView::ConnectSegment {
            name: service.config.sm_name,
        }),
        Phase::ConnectingChannel => host.action is ConnectChannel,
        Phase::Writing => host.action == (ActionView::Write { payload: request }),
        Phase::Signalling => host.action == (ActionView::Send { text: signal_for(request) }),
        Phase::Waiting => host.action == ActionView::Receive,
        Phase::Reading => host.action == (ActionView::Read { len: encode_utf8(response).len() }),
        Phase::ClosingChannel => !service.failed && host.action is DisconnectChannel
            && service.incoming == response,
        Phase::ClosingSegment => !service.failed && host.action == (
        ActionView::DisconnectSegment { remove: true }) && service.incoming == response,
        Phase::Done => host.action == (ActionView::Finish { code: EExitCode::SUCCESS })
            && service.incoming == response,
        _ => false,
    }
}

/// What holds of a worker in a run that has not failed, by its phase.
pub open spec fn worker_in_run(worker: Party, request: Seq<char>) -> bool {
    let service = worker.service;
    let response = response_to(request);
    &&& service.role == Role::Worker
    &&& service.running
    &&& worker.manager.page_size > 0
    &&& match service.phase {
        Phase::ConnectingSegment => worker.action == (ActionView::ConnectSegment {
            name: service.config.sm_name,
        }),
        Phase::ConnectingChannel => worker.action is ConnectChannel,
        Phase::Waiting => worker.action == ActionView::Receive,
        Phase::Reading => worker.action == (ActionView::Read { len: encode_utf8(request).len() }),
        Phase::Writing => worker.action == (ActionView::Write { payload: response })
            && service.incoming == request && service.outgoing == response,
        Phase::Signalling => worker.action == (ActionView::Send { text: signal_for(response) })
            && service.incoming == request && service.outgoing == response,
        Phase::ClosingChannel => !service.failed && worker.action is DisconnectChannel
            && service.incoming == request,
        Phase::ClosingSegment => !service.failed && worker.action == (
        ActionView::DisconnectSegment { remove: false }) && service.incoming == request,
        Phase::Done => worker.action == (ActionView::Finish { code: EExitCode::SUCCESS })
            && service.incoming == request,
        _ => false,
    }
}

/// Whether the host has not yet taken the worker's signal.
pub open spec fn before_response(phase: Phase) -> bool {
    phase == Phase::ConnectingSegment || phase == Phase::ConnectingChannel || phase
        == Phase::Writing || phase == Phase::Signalling || phase == Phase::Waiting
}

/// Whether the party holds a handle in this phase of a run.
pub open spec fn holding(phase: Phase) -> bool {
    phase == Phase::ConnectingChannel || phase == Phase::Writing || phase == Phase::Signalling
        || phase == Phase::Waiting || phase == Phase::Reading
}

/// How a host and a worker that both run stand to each other, by the worker's
/// phase: who may have signalled, and what the segment holds.
pub open spec fn in_turn(pair: Pair, request: Seq<char>) -> bool {
    let host = pair.host.service.phase;
    let shared = pair.shared;
    let name = pair.host.service.config.sm_name;
    let response = response_to(request);
    let none = Seq::<Seq<char>>::empty();
    match pair.worker.service.phase {
        Phase::ConnectingSegment | Phase::ConnectingChannel | Phase::Waiting => {
            &&& shared.to_host == none
            &&& before_response(host)
            &&& shared.to_worker == if host == Phase::Waiting {
                seq![signal_for(request)]
            } else {
                none
            }
            &&& host == Phase::Signalling || host == Phase::Waiting ==> holds(
                shared.objects,
                name,
                request,
            )
        },
        Phase::Reading => {
            &&& host == Phase::Waiting
            &&& shared.to_host == none
            &&& shared.to_worker == none
            &&& holds(shared.objects, name, request)
        },
        Phase::Writing => {
            &&& host == Phase::Waiting
            &&& shared.to_host == none
            &&& shared.to_worker == none
        },
        Phase::Signalling => {
            &&& host == Phase::Waiting
            &&& shared.to_host == none
            &&& shared.to_worker == none
            &&& holds(shared.objects, name, response)
        },
        _ => {
            &&& shared.to_worker == none
            &&& if host == Phase::Waiting {
                shared.to_host == seq![signal_for(response)] && holds(
                    shared.objects,
                    name,
                    response,
                )
            } else if host == Phase::Reading {
                shared.to_host == none && holds(shared.objects, name, response)
            } else {
                shared.to_host == none && !before_response(host)
            }
        },
    }
}

/// What holds of a host and a worker at every moment of their runs, whoever
/// moves and whatever fails: either the host's run has failed; or the worker's
/// run has failed, and the host has then not got beyond waiting for it; or
/// both stand to each other as `in_turn` says.
pub open spec fn in_step(pair: Pair, request: Seq<char>) -> bool {
    let name = pair.host.service.config.sm_name;
    &&& pair.worker.service.config.sm_name == name
    &&& pair.worker.service.role == Role::Worker
    &&& doomed(pair.host) || {
        &&& host_in_run(pair.host, request)
        &&& holding(pair.host.service.phase) ==> attached_to(
            pair.host.manager,
            pair.shared.objects,
            name,
        )
        &&& if doomed(pair.worker) {
            &&& before_response(pair.host.service.phase)
            &&& pair.shared.to_host == Seq::<Seq<char>>::empty()
            &&& pair.worker.action is DisconnectSegment ==> pair.worker.action == (
            ActionView::DisconnectSegment { remove: false })
        } else {
            &&& worker_in_run(pair.worker, request)
            &&& holding(pair.worker.service.phase) ==> attached_to(
                pair.worker.manager,
                pair.shared.objects,
                name,
            )
            &&& in_turn(pair, request)
        }
    }
}

/// The move of the host with these faults.
pub open spec fn host_move(faults: Seq<bool>) -> Move {
    Move { of_host: true, faults }
}

/// The move of the worker with these faults.
pub open spec fn worker_move(faults: Seq<bool>) -> Move {
    Move { of_host: false, faults }
}

proof fn lemma_host_connects(pair: Pair, request: Seq<char>, faults: Seq<bool>)
    requires
        in_step(pair, request),
        !doomed(pair.host),
        pair.host.service.phase == Phase::ConnectingSegment,
        faults.len() >= 5,
    ensures
        in_step(moved(pair, host_move(faults)), request),
{
    let name = pair.host.service.config.sm_name;
    lemma_connect_runs(pair.host.manager, pair.shared.objects, name, faults);
}

proof fn lemma_host_writes(pair: Pair, request: Seq<char>, faults: Seq<bool>)
    requires
        in_step(pair, request),
        !doomed(pair.host),
        pair.host.service.phase == Phase::Writing,
        faults.len() >= 5,
    ensures
        in_step(moved(pair, host_move(faults)), request),
{
    let name = pair.host.service.config.sm_name;
    let payload = encode_utf8(request);
    lemma_best_size_bounds(payload.len(), pair.host.manager.page_size);
    lemma_best_size_closed_form(payload.len(), pair.host.manager.page_size);
    lemma_write_runs(pair.host.manager, payload, pair.shared.objects, name, faults);
}

proof fn lemma_host_reads(pair: Pair, request: Seq<char>, faults: Seq<bool>)
    requires
        in_step(pair, request),
        !doomed(pair.host),
        pair.host.service.phase == Phase::Reading,
        faults.len() >= 5,
    ensures
        in_step(moved(pair, host_move(faults)), request),
{
    let name = pair.host.service.config.sm_name;
    let response = response_to(request);
    let len = encode_utf8(response).len();
    encode_utf8_valid_utf8(response);
    encode_utf8_decode_utf8(response);
    lemma_read_runs(pair.host.manager, len, pair.shared.objects, name, faults);
}

proof fn lemma_host_signals(pair: Pair, request: Seq<char>, faults: Seq<bool>)
    requires
        in_step(pair, request),
        !doomed(pair.host),
        pair.host.service.phase == Phase::ConnectingChannel || pair.host.service.phase
            == Phase::Signalling || pair.host.service.phase == Phase::Waiting,
        faults.len() >= 5,
    ensures
        in_step(moved(pair, host_move(faults)), request),
{
    let response = response_to(request);
    let next = moved(pair, host_move(faults));
    if pair.host.service.phase == Phase::Waiting && pair.shared.to_host.len() > 0 {
        lemma_signal_round_trip(encode_utf8(response).len() as usize);
        assert(!doomed(next.host) ==> next.shared.to_host =~= Seq::<Seq<char>>::empty());
    }
    if pair.host.service.phase == Phase::Signalling {
        assert(!doomed(pair.worker) ==> pair.shared.to_worker.push(signal_for(request))
            =~= seq![signal_for(request)]);
    }
}

proof fn lemma_host_cleans_up(pair: Pair, request: Seq<char>, faults: Seq<bool>)
    requires
        in_step(pair, request),
        doomed(pair.host) || pair.host.service.phase == Phase::ClosingChannel
            || pair.host.service.phase == Phase::ClosingSegment || pair.host.service.phase
            == Phase::Done,
        faults.len() >= 5,
    ensures
        in_step(moved(pair, host_move(faults)), request),
{
    if !doomed(pair.host) && pair.host.service.phase == Phase::ClosingSegment {
        lemma_disconnect_runs(pair.host.manager, true, pair.shared.objects, faults);
    }
}

/// A move of the host keeps host and worker in step.
pub proof fn lemma_host_keeps_step(pair: Pair, request: Seq<char>, faults: Seq<bool>)
    requires
        in_step(pair, request),
        faults.len() >= 5,
    ensures
        in_step(moved(pair, host_move(faults)), request),
{
    if doomed(pair.host) {
        lemma_host_cleans_up(pair, request, faults);
    } else {
        match pair.host.service.phase {
            Phase::ConnectingSegment => lemma_host_connects(pair, request, faults),
            Phase::Writing => lemma_host_writes(pair, request, faults),
            Phase::Reading => lemma_host_reads(pair, request, faults),
            Phase::ConnectingChannel | Phase::Signalling | Phase::Waiting => lemma_host_signals(
                pair,
                request,
                faults,
            ),
            _ => lemma_host_cleans_up(pair, request, faults),
        }
    }
}

proof fn lemma_worker_connects(pair: Pair, request: Seq<char>, faults: Seq<bool>)
    requires
        in_step(pair, request),
        !doomed(pair.host),
        !doomed(pair.worker),
        pair.worker.service.phase == Phase::ConnectingSegment,
        faults.len() >= 5,
    ensures
        in_step(moved(pair, worker_move(faults)), request),
{
    let name = pair.host.service.config.sm_name;
    lemma_connect_runs(pair.worker.manager, pair.shared.objects, name, faults);
}

proof fn lemma_worker_reads(pair: Pair, request: Seq<char>, faults: Seq<bool>)
    requires
        in_step(pair, request),
        !doomed(pair.host),
        !doomed(pair.worker),
        pair.worker.service.phase == Phase::Reading,
        faults.len() >= 5,
    ensures
        in_step(moved(pair, worker_move(faults)), request),
{
    let name = pair.host.service.config.sm_name;
    let len = encode_utf8(request).len();
    encode_utf8_valid_utf8(request);
    encode_utf8_decode_utf8(request);
    lemma_read_runs(pair.worker.manager, len, pair.shared.objects, name, faults);
}

proof fn lemma_worker_writes(pair: Pair, request: Seq<char>, faults: Seq<bool>)
    requires
        in_step(pair, request),
        !doomed(pair.host),
        !doomed(pair.worker),
        pair.worker.service.phase == Phase::Writing,
        faults.len() >= 5,
    ensures
        in_step(moved(pair, worker_move(faults)), request),
{
    let name = pair.host.service.config.sm_name;
    let payload = encode_utf8(response_to(request));
    lemma_best_size_bounds(payload.len(), pair.worker.manager.page_size);
    lemma_best_size_closed_form(payload.len(), pair.worker.manager.page_size);
    lemma_write_runs(pair.worker.manager, payload, pair.shared.objects, name, faults);
}

proof fn lemma_worker_signals(pair: Pair, request: Seq<char>, faults: Seq<bool>)
    requires
        in_step(pair, request),
        !doomed(pair.host),
        !doomed(pair.worker),
        pair.worker.service.phase == Phase::ConnectingChannel || pair.worker.service.phase
            == Phase::Signalling || pair.worker.service.phase == Phase::Waiting,
        faults.len() >= 5,
    ensures
        in_step(moved(pair, worker_move(faults)), request),
{
    let response = response_to(request);
    let next = moved(pair, worker_move(faults));
    if pair.worker.service.phase == Phase::Waiting && pair.shared.to_worker.len() > 0 {
        lemma_signal_round_trip(encode_utf8(request).len() as usize);
        assert(!doomed(next.worker) ==> next.shared.to_worker =~= Seq::<Seq<char>>::empty());
    }
    if pair.worker.service.phase == Phase::Signalling {
        assert(pair.shared.to_host.push(signal_for(response)) =~= seq![signal_for(response)]);
    }
}

proof fn lemma_worker_cleans_up(pair: Pair, request: Seq<char>, faults: Seq<bool>)
    requires
        in_step(pair, request),
        doomed(pair.host) || doomed(pair.worker) || pair.worker.service.phase
            == Phase::ClosingChannel || pair.worker.service.phase == Phase::ClosingSegment
            || pair.worker.service.phase == Phase::Done,
        faults.len() >= 5,
    ensures
        in_step(moved(pair, worker_move(faults)), request),
{
    if !doomed(pair.host) && pair.worker.action is DisconnectSegment {
        lemma_disconnect_runs(pair.worker.manager, false, pair.shared.objects, faults);
    }
}

/// A move of the worker keeps host and worker in step.
pub proof fn lemma_worker_keeps_step(pair: Pair, request: Seq<char>, faults: Seq<bool>)
    requires
        in_step(pair, request),
        faults.len() >= 5,
    ensures
        in_step(moved(pair, worker_move(faults)), request),
{
    if doomed(pair.host) || doomed(pair.worker) {
        lemma_worker_cleans_up(pair, request, faults);
    } else {
        match pair.worker.service.phase {
            Phase::ConnectingSegment => lemma_worker_connects(pair, request, faults),
            Phase::Writing => lemma_worker_writes(pair, request, faults),
            Phase::Reading => lemma_worker_reads(pair, request, faults),
            Phase::ConnectingChannel | Phase::Signalling | Phase::Waiting => lemma_worker_signals(
                pair,
                request,
                faults,
            ),
            _ => lemma_worker_cleans_up(pair, request, faults),
        }
    }
}

/// A host and a worker that begin their runs, each with a manager that is
/// connected to nothing, and with no message under way.
pub open spec fn starting(
    host_config: ServiceConfigView,
    worker_config: ServiceConfigView,
    request: Seq<char>,
    host_page_size: nat,
    worker_page_size: nat,
    objects: Objects,
) -> Pair {
    Pair {
        host: entering(Role::Host, host_config, request, host_page_size),
        worker: entering(Role::Worker, worker_config, Seq::empty(), worker_page_size),
        shared: Shared { objects, to_worker: Seq::empty(), to_host: Seq::empty() },
    }
}

/// Host and worker stay in step, whoever moves and whatever fails.
pub proof fn lemma_stays_in_step(pair: Pair, request: Seq<char>, moves: Seq<Move>)
    requires
        in_step(pair, request),
        playable(moves),
    ensures
        in_step(played(pair, moves), request),
    decreases moves.len(),
{
    if moves.len() > 0 {
        let first = moves[0];
        assert(first.faults.len() >= 5);
        if first.of_host {
            lemma_host_keeps_step(pair, request, first.faults);
            assert(first == host_move(first.faults));
        } else {
            lemma_worker_keeps_step(pair, request, first.faults);
            assert(first == worker_move(first.faults));
        }
        let rest = moves.drop_first();
        assert forall|i: int| 0 <= i < rest.len() implies (#[trigger] rest[i]).faults.len()
            >= 5 by {
            assert(rest[i] == moves[i + 1]);
        }
        lemma_stays_in_step(moved(pair, first), request, rest);
    }
}

/// The round trip, in whatever order host and worker take their turns and
/// whatever fails in them: a host's run that has ended in success has read
/// exactly the worker's response to the host's request, and the worker has
/// read exactly that request.
///
/// The two sides are configured with the same segment name.
pub proof fn lemma_round_trip_in_any_order(
    host_config: ServiceConfigView,
    worker_config: ServiceConfigView,
    request: Seq<char>,
    host_page_size: nat,
    worker_page_size: nat,
    objects: Objects,
    moves: Seq<Move>,
)
    requires
        host_config.sm_name == worker_config.sm_name,
        host_page_size > 0,
        worker_page_size > 0,
        playable(moves),
    ensures
        ({
            let begun = starting(
                host_config,
                worker_config,
                request,
                host_page_size,
                worker_page_size,
                objects,
            );
            let end = played(begun, moves);
            end.host.action == (ActionView::Finish { code: EExitCode::SUCCESS }) ==> {
                &&& end.host.service.incoming == response_to(request)
                &&& end.worker.service.incoming == request
            }
        }),
{
    let begun = starting(
        host_config,
        worker_config,
        request,
        host_page_size,
        worker_page_size,
        objects,
    );
    lemma_stays_in_step(begun, request, moves);
}

/// Host and worker take turns at the segment, in whatever order they move
/// and whatever fails: the two never touch its bytes at the same time, and
/// while the worker touches them, a host whose run has not failed waits for
/// the worker's signal.
pub proof fn lemma_turn_taking(
    host_config: ServiceConfigView,
    worker_config: ServiceConfigView,
    request: Seq<char>,
    host_page_size: nat,
    worker_page_size: nat,
    objects: Objects,
    moves: Seq<Move>,
)
    requires
        host_config.sm_name == worker_config.sm_name,
        host_page_size > 0,
        worker_page_size > 0,
        playable(moves),
    ensures
        ({
            let begun = starting(
                host_config,
                worker_config,
                request,
                host_page_size,
                worker_page_size,
                objects,
            );
            let end = played(begun, moves);
            &&& !(touches(end.host) && touches(end.worker))
            &&& touches(end.worker) && !doomed(end.host) ==> end.host.action == ActionView::Receive
        }),
{
    let begun = starting(
        host_config,
        worker_config,
        request,
        host_page_size,
        worker_page_size,
        objects,
    );
    lemma_stays_in_step(begun, request, moves);
}

} // verus!
