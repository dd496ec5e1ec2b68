//! Where nothing fails, host and worker complete their exchange.

use vstd::prelude::*;
use vstd::utf8::encode_utf8;
use vstd::utf8::encode_utf8_decode_utf8;
use vstd::utf8::encode_utf8_valid_utf8;
use crate::pcube::common::exchange::response_to;
use crate::pcube::common::exchange::signal_for;
use crate::pcube::common::exchange::ActionView;
use crate::pcube::common::exchange::ExchangeState;
use crate::pcube::common::exchange::Phase;
use crate::pcube::common::exchange::Role;
use crate::pcube::common::service_config::ServiceConfigView;
use crate::pcube::common::signal::lemma_signal_round_trip;
use crate::pcube::common::sizing::lemma_best_size_bounds;
use crate::pcube::common::sm_laws::lemma_connect_runs;
use crate::pcube::common::sm_laws::lemma_disconnect_runs;
use crate::pcube::common::sm_laws::lemma_read_runs;
use crate::pcube::common::sm_laws::lemma_write_runs;
use crate::pcube::common::sm_laws::no_fault;
use crate::pcube::common::sm_world::attached_to;
use crate::pcube::common::sm_world::Objects;
use crate::pcube::common::system::channel_fails;
use crate::pcube::common::system::entering;
use crate::pcube::common::system::fits;
use crate::pcube::common::system::holds;
use crate::pcube::common::system::quiet;
use crate::pcube::common::system::scheduled;
use crate::pcube::common::system::through;
use crate::pcube::common::system::turn;
use crate::pcube::common::system::turns;
use crate::pcube::common::system::Party;
use crate::pcube::common::system::Shared;

verus! {

proof fn lemma_encode_not_empty(text: Seq<char>)
    requires
        text.len() > 0,
    ensures
        encode_utf8(text).len() > 0,
{
}

proof fn lemma_quiet_turn(schedule: Seq<Seq<bool>>, turn: int)
    requires
        quiet(schedule),
        0 <= turn < schedule.len(),
    ensures
        no_fault(schedule[turn], 5),
        no_fault(schedule[turn], 3),
        !channel_fails(schedule[turn]),
{
    assert forall|j: int| 0 <= j < schedule[turn].len() implies !#[trigger] schedule[turn][j] by {
        assert(!schedule[turn][j]);
    }
}

proof fn lemma_quiet_rest(schedule: Seq<Seq<bool>>, count: nat, taken: int)
    requires
        scheduled(schedule, count),
        quiet(schedule),
        0 <= taken <= count,
    ensures
        scheduled(schedule.take(taken), taken as nat),
        quiet(schedule.take(taken)),
        scheduled(schedule.skip(taken), (count - taken) as nat),
        quiet(schedule.skip(taken)),
{
    let front = schedule.take(taken);
    assert forall|i: int| 0 <= i < front.len() implies (#[trigger] front[i]).len() >= 5 by {
        assert(front[i] == schedule[i]);
    }
    assert forall|i: int, j: int| 0 <= i < front.len() && 0 <= j < front[i].len() implies !(
    #[trigger] front[i][j]) by {
        assert(front[i] == schedule[i]);
        assert(!schedule[i][j]);
    }
    let rest = schedule.skip(taken);
    assert forall|i: int| 0 <= i < rest.len() implies (#[trigger] rest[i]).len() >= 5 by {
        assert(rest[i] == schedule[i + taken]);
    }
    assert forall|i: int, j: int| 0 <= i < rest.len() && 0 <= j < rest[i].len() implies !(
    #[trigger] rest[i][j]) by {
        assert(rest[i] == schedule[i + taken]);
        assert(!schedule[i + taken][j]);
    }
}

proof fn lemma_turns_split(party: Party, shared: Shared, schedule: Seq<Seq<bool>>, taken: int)
    requires
        0 <= taken <= schedule.len(),
    ensures
        ({
            let (next, shared_then) = turns(party, shared, schedule.take(taken));
            turns(party, shared, schedule) == turns(next, shared_then, schedule.skip(taken))
        }),
    decreases taken,
{
    if taken == 0 {
        assert(schedule.skip(0) =~= schedule);
    } else {
        let (next, shared_then) = turn(party, shared, schedule[0]);
        lemma_turns_split(next, shared_then, schedule.drop_first(), taken - 1);
        assert(schedule.take(taken).drop_first() =~= schedule.drop_first().take(taken - 1));
        assert(schedule.drop_first().skip(taken - 1) =~= schedule.skip(taken));
    }
}

/// The service of a host in the middle of a run that has not failed and has
/// read nothing yet.
pub open spec fn host_at(config: ServiceConfigView, phase: Phase, request: Seq<char>)
    -> ExchangeState {
    ExchangeState {
        listening: true,
        running: true,
        phase,
        ..ExchangeState::fresh(Role::Host, config, request)
    }
}

/// The service of a worker in the middle of a run that has not failed.
pub open spec fn worker_at(
    config: ServiceConfigView,
    phase: Phase,
    incoming: Seq<char>,
    outgoing: Seq<char>,
) -> ExchangeState {
    ExchangeState {
        listening: true,
        running: true,
        phase,
        incoming,
        ..ExchangeState::fresh(Role::Worker, config, outgoing)
    }
}

/// Whether the host has written and signalled its request and now waits for
/// the worker.
pub open spec fn requested(host: Party, shared: Shared, request: Seq<char>) -> bool {
    let name = host.service.config.sm_name;
    &&& host.action == ActionView::Receive
    &&& host.service == host_at(host.service.config, Phase::Waiting, request)
    &&& attached_to(host.manager, shared.objects, name)
    &&& holds(shared.objects, name, request)
    &&& shared.to_worker == seq![signal_for(request)]
    &&& shared.to_host == Seq::<Seq<char>>::empty()
}

/// Whether the worker has read the request, has written and signalled its
/// response, and is through.
pub open spec fn answered(worker: Party, shared: Shared, request: Seq<char>) -> bool {
    &&& through(worker)
    &&& worker.service.incoming == request
    &&& worker.service.outgoing == response_to(request)
    &&& holds(shared.objects, worker.service.config.sm_name, response_to(request))
    &&& shared.to_worker == Seq::<Seq<char>>::empty()
    &&& shared.to_host == seq![signal_for(response_to(request))]
}

/// The host connects, where nothing fails.
#[verifier::rlimit(30)]
proof fn lemma_host_connects(
    config: ServiceConfigView,
    request: Seq<char>,
    page_size: nat,
    objects: Objects,
    schedule: Seq<Seq<bool>>,
)
    requires
        page_size > 0,
        scheduled(schedule, 2),
        quiet(schedule),
    ensures
        ({
            let begun = Shared { objects, to_worker: Seq::empty(), to_host: Seq::empty() };
            let (host, shared) = turns(
                entering(Role::Host, config, request, page_size),
                begun,
                schedule,
            );
            &&& host.service == host_at(config, Phase::Writing, request)
            &&& host.action == (ActionView::Write { payload: request })
            &&& host.manager.page_size == page_size
            &&& attached_to(host.manager, shared.objects, config.sm_name)
            &&& shared.to_worker == Seq::<Seq<char>>::empty()
            &&& shared.to_host == Seq::<Seq<char>>::empty()
        }),
{
    reveal_with_fuel(turns, 3);
    lemma_quiet_turn(schedule, 0);
    lemma_quiet_turn(schedule, 1);
    assert(schedule.drop_first()[0] == schedule[1]);
    let begun = Shared { objects, to_worker: Seq::empty(), to_host: Seq::empty() };
    let entered = entering(Role::Host, config, request, page_size);
    lemma_connect_runs(entered.manager, objects, config.sm_name, schedule[0]);
    let (connected, shared1) = turn(entered, begun, schedule[0]);
    assert(connected.service == host_at(config, Phase::ConnectingChannel, request));
}

/// The host writes its request, signals the request's length, and then waits
/// for the worker, where nothing fails.
#[verifier::rlimit(30)]
proof fn lemma_host_asks(host: Party, request: Seq<char>, begun: Shared, schedule: Seq<Seq<bool>>)
    requires
        host.service == host_at(host.service.config, Phase::Writing, request),
        host.action == (ActionView::Write { payload: request }),
        host.manager.page_size > 0,
        attached_to(host.manager, begun.objects, host.service.config.sm_name),
        request.len() > 0,
        fits(request, host.manager.page_size),
        begun.to_worker == Seq::<Seq<char>>::empty(),
        begun.to_host == Seq::<Seq<char>>::empty(),
        scheduled(schedule, 3),
        quiet(schedule),
    ensures
        ({
            let (waiting, shared) = turns(host, begun, schedule);
            requested(waiting, shared, request) && waiting.service.config == host.service.config
        }),
{
    reveal_with_fuel(turns, 4);
    let config = host.service.config;
    let payload = encode_utf8(request);
    lemma_encode_not_empty(request);
    lemma_best_size_bounds(payload.len(), host.manager.page_size);
    lemma_quiet_turn(schedule, 0);
    lemma_quiet_turn(schedule, 1);
    let rest1 = schedule.drop_first();
    let rest2 = rest1.drop_first();
    assert(rest1[0] == schedule[1] && rest2[0] == schedule[2]);
    lemma_write_runs(host.manager, payload, begun.objects, config.sm_name, schedule[0]);
    let (wrote, shared1) = turn(host, begun, schedule[0]);
    assert(wrote.service == host_at(config, Phase::Signalling, request));
    let (signalled, shared2) = turn(wrote, shared1, schedule[1]);
    assert(signalled.service == host_at(config, Phase::Waiting, request));
    assert(shared2.to_worker =~= seq![signal_for(request)]);
    assert(turn(signalled, shared2, schedule[2]) == (signalled, shared2));
}

/// The first half of the host's run, where nothing fails: the host connects,
/// writes its request, signals the request's length, and then waits for the
/// worker.
proof fn lemma_host_opens(
    config: ServiceConfigView,
    request: Seq<char>,
    page_size: nat,
    objects: Objects,
    schedule: Seq<Seq<bool>>,
)
    requires
        page_size > 0,
        request.len() > 0,
        fits(request, page_size),
        scheduled(schedule, 5),
        quiet(schedule),
    ensures
        ({
            let begun = Shared { objects, to_worker: Seq::empty(), to_host: Seq::empty() };
            let (host, shared) = turns(
                entering(Role::Host, config, request, page_size),
                begun,
                schedule,
            );
            &&& requested(host, shared, request)
            &&& host.service.config == config
        }),
{
    let begun = Shared { objects, to_worker: Seq::empty(), to_host: Seq::empty() };
    let entered = entering(Role::Host, config, request, page_size);
    lemma_quiet_rest(schedule, 5, 2);
    lemma_turns_split(entered, begun, schedule, 2);
    lemma_host_connects(config, request, page_size, objects, schedule.take(2));
    let (connected, shared) = turns(entered, begun, schedule.take(2));
    lemma_host_asks(connected, request, shared, schedule.skip(2));
}

/// The first half of the worker's run, where nothing fails and the request
/// lies in the segment with its signal in the queue: the worker connects and
/// reads the request.
#[verifier::rlimit(30)]
proof fn lemma_worker_reads(
    config: ServiceConfigView,
    request: Seq<char>,
    page_size: nat,
    begun: Shared,
    schedule: Seq<Seq<bool>>,
)
    requires
        page_size > 0,
        request.len() > 0,
        holds(begun.objects, config.sm_name, request),
        begun.to_worker == seq![signal_for(request)],
        begun.to_host == Seq::<Seq<char>>::empty(),
        scheduled(schedule, 4),
        quiet(schedule),
    ensures
        ({
            let (worker, shared) = turns(
                entering(Role::Worker, config, Seq::empty(), page_size),
                begun,
                schedule,
            );
            &&& worker.service == worker_at(config, Phase::Writing, request, response_to(request))
            &&& worker.action == (ActionView::Write { payload: response_to(request) })
            &&& worker.manager.page_size == page_size
            &&& attached_to(worker.manager, shared.objects, config.sm_name)
            &&& shared.to_worker == Seq::<Seq<char>>::empty()
            &&& shared.to_host == Seq::<Seq<char>>::empty()
        }),
{
    reveal_with_fuel(turns, 5);
    let len = encode_utf8(request).len();
    lemma_encode_not_empty(request);
    lemma_signal_round_trip(len as usize);
    encode_utf8_valid_utf8(request);
    encode_utf8_decode_utf8(request);
    lemma_quiet_turn(schedule, 0);
    lemma_quiet_turn(schedule, 1);
    lemma_quiet_turn(schedule, 2);
    lemma_quiet_turn(schedule, 3);
    let rest1 = schedule.drop_first();
    let rest2 = rest1.drop_first();
    let rest3 = rest2.drop_first();
    assert(rest1[0] == schedule[1] && rest2[0] == schedule[2] && rest3[0] == schedule[3]);
    let entered = entering(Role::Worker, config, Seq::empty(), page_size);
    lemma_connect_runs(entered.manager, begun.objects, config.sm_name, schedule[0]);
    let none = Seq::<char>::empty();
    let (connected, shared1) = turn(entered, begun, schedule[0]);
    assert(connected.service == worker_at(config, Phase::ConnectingChannel, none, none));
    let (joined, shared2) = turn(connected, shared1, schedule[1]);
    assert(joined.service == worker_at(config, Phase::Waiting, none, none));
    let (told, shared3) = turn(joined, shared2, schedule[2]);
    assert(told.service == worker_at(config, Phase::Reading, none, none));
    assert(shared3.to_worker =~= Seq::<Seq<char>>::empty());
    lemma_read_runs(told.manager, len, shared3.objects, config.sm_name, schedule[3]);
}

/// The second half of the worker's run, where nothing fails: the worker
/// writes its response, signals the response's length, and cleans up.
#[verifier::rlimit(30)]
proof fn lemma_worker_answers(
    worker: Party,
    request: Seq<char>,
    begun: Shared,
    schedule: Seq<Seq<bool>>,
)
    requires
        worker.service == worker_at(
            worker.service.config,
            Phase::Writing,
            request,
            response_to(request),
        ),
        worker.action == (ActionView::Write { payload: response_to(request) }),
        worker.manager.page_size > 0,
        attached_to(worker.manager, begun.objects, worker.service.config.sm_name),
        request.len() > 0,
        fits(response_to(request), worker.manager.page_size),
        begun.to_worker == Seq::<Seq<char>>::empty(),
        begun.to_host == Seq::<Seq<char>>::empty(),
        scheduled(schedule, 4),
        quiet(schedule),
    ensures
        ({
            let (ended, shared) = turns(worker, begun, schedule);
            answered(ended, shared, request) && ended.service.config == worker.service.config
        }),
{
    reveal_with_fuel(turns, 5);
    let name = worker.service.config.sm_name;
    let payload = encode_utf8(response_to(request));
    lemma_encode_not_empty(response_to(request));
    lemma_best_size_bounds(payload.len(), worker.manager.page_size);
    lemma_quiet_turn(schedule, 0);
    lemma_quiet_turn(schedule, 1);
    lemma_quiet_turn(schedule, 2);
    lemma_quiet_turn(schedule, 3);
    let rest1 = schedule.drop_first();
    let rest2 = rest1.drop_first();
    let rest3 = rest2.drop_first();
    assert(rest1[0] == schedule[1] && rest2[0] == schedule[2] && rest3[0] == schedule[3]);
    lemma_write_runs(worker.manager, payload, begun.objects, name, schedule[0]);
    let (wrote, shared1) = turn(worker, begun, schedule[0]);
    assert(wrote.service.phase == Phase::Signalling);
    let (signalled, shared2) = turn(wrote, shared1, schedule[1]);
    assert(signalled.service.phase == Phase::ClosingChannel);
    assert(shared2.to_host =~= seq![signal_for(response_to(request))]);
    let (closing, shared3) = turn(signalled, shared2, schedule[2]);
    assert(closing.service.phase == Phase::ClosingSegment);
    lemma_disconnect_runs(closing.manager, false, shared3.objects, schedule[3]);
}

/// The second half of the host's run, where nothing fails and the response
/// lies in the segment with its signal in the queue: the host reads the
/// response and cleans up.
#[verifier::rlimit(30)]
proof fn lemma_host_closes(
    host: Party,
    response: Seq<char>,
    begun: Shared,
    schedule: Seq<Seq<bool>>,
)
    requires
        host.action == ActionView::Receive,
        host.service.role == Role::Host,
        host.service.phase == Phase::Waiting,
        attached_to(host.manager, begun.objects, host.service.config.sm_name),
        response.len() > 0,
        holds(begun.objects, host.service.config.sm_name, response),
        begun.to_host == seq![signal_for(response)],
        scheduled(schedule, 4),
        quiet(schedule),
    ensures
        ({
            let (ended, shared) = turns(host, begun, schedule);
            let name = host.service.config.sm_name;
            &&& through(ended)
            &&& ended.service.incoming == response
            &&& !shared.objects.dom().contains(name)
        }),
{
    reveal_with_fuel(turns, 5);
    let name = host.service.config.sm_name;
    let len = encode_utf8(response).len();
    lemma_encode_not_empty(response);
    lemma_signal_round_trip(len as usize);
    encode_utf8_valid_utf8(response);
    encode_utf8_decode_utf8(response);
    lemma_quiet_turn(schedule, 0);
    lemma_quiet_turn(schedule, 1);
    lemma_quiet_turn(schedule, 2);
    lemma_quiet_turn(schedule, 3);
    let rest1 = schedule.drop_first();
    let rest2 = rest1.drop_first();
    let rest3 = rest2.drop_first();
    assert(rest1[0] == schedule[1] && rest2[0] == schedule[2] && rest3[0] == schedule[3]);
    let (told, shared1) = turn(host, begun, schedule[0]);
    assert(told.service.phase == Phase::Reading);
    assert(shared1.to_host =~= Seq::<Seq<char>>::empty());
    lemma_read_runs(told.manager, len, shared1.objects, name, schedule[1]);
    let (read, shared2) = turn(told, shared1, schedule[1]);
    assert(read.service.phase == Phase::ClosingChannel);
    let (closing, shared3) = turn(read, shared2, schedule[2]);
    assert(closing.service.phase == Phase::ClosingSegment);
    lemma_disconnect_runs(closing.manager, true, shared3.objects, schedule[3]);
}

/// Where nothing fails, the exchange succeeds: the host runs until it waits
/// for the worker, the worker then runs to its end, and the host then runs
/// to its end. Both runs end in success, the worker has read the request, the
/// host has read the worker's response to it, and the host leaves no segment
/// behind.
///
/// The two sides are configured with the same segment name. The request is
/// not empty, and request and response fit a segment.
pub proof fn lemma_exchange_succeeds(
    host_config: ServiceConfigView,
    worker_config: ServiceConfigView,
    request: Seq<char>,
    host_page_size: nat,
    worker_page_size: nat,
    objects: Objects,
    first: Seq<Seq<bool>>,
    middle: Seq<Seq<bool>>,
    last: Seq<Seq<bool>>,
)
    requires
        host_config.sm_name == worker_config.sm_name,
        host_page_size > 0,
        worker_page_size > 0,
        request.len() > 0,
        fits(request, host_page_size),
        fits(response_to(request), worker_page_size),
        scheduled(first, 5),
        scheduled(middle, 8),
        scheduled(last, 4),
        quiet(first),
        quiet(middle),
        quiet(last),
    ensures
        ({
            let begun = Shared { objects, to_worker: Seq::empty(), to_host: Seq::empty() };
            let (host_waiting, asked) = turns(
                entering(Role::Host, host_config, request, host_page_size),
                begun,
                first,
            );
            let (worker, replied) = turns(
                entering(Role::Worker, worker_config, Seq::empty(), worker_page_size),
                asked,
                middle,
            );
            let (host, ended) = turns(host_waiting, replied, last);
            &&& through(worker)
            &&& worker.service.incoming == request
            &&& through(host)
            &&& host.service.incoming == response_to(request)
            &&& !ended.objects.dom().contains(host_config.sm_name)
        }),
{
    let response = response_to(request);
    let begun = Shared { objects, to_worker: Seq::empty(), to_host: Seq::empty() };
    lemma_host_opens(host_config, request, host_page_size, objects, first);
    let (host_waiting, asked) = turns(
        entering(Role::Host, host_config, request, host_page_size),
        begun,
        first,
    );
    let entered = entering(Role::Worker, worker_config, Seq::empty(), worker_page_size);
    lemma_quiet_rest(middle, 8, 4);
    lemma_turns_split(entered, asked, middle, 4);
    lemma_worker_reads(worker_config, request, worker_page_size, asked, middle.take(4));
    let (worker_read, read) = turns(entered, asked, middle.take(4));
    lemma_worker_answers(worker_read, request, read, middle.skip(4));
    let (worker, replied) = turns(entered, asked, middle);
    lemma_host_closes(host_waiting, response, replied, last);
}

} // verus!
