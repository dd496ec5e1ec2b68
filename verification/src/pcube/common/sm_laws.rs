//! What holds of the segment manager's operations on a system that answers as
//! `sm_world` says, whichever of its calls fail.

use vstd::prelude::*;
use vstd::utf8::decode_utf8;
use vstd::utf8::encode_utf8;
use vstd::utf8::encode_utf8_decode_utf8;
use vstd::utf8::encode_utf8_valid_utf8;
use vstd::utf8::valid_utf8;
use crate::pcube::common::enums::EExitCode;
use crate::pcube::common::sizing::best_size;
use crate::pcube::common::sizing::lemma_best_size_bounds;
use crate::pcube::common::sizing::lemma_best_size_closed_form;
use crate::pcube::common::sm_calls::StepView;
use crate::pcube::common::sm_calls::SysCallView;
use crate::pcube::common::sm_calls::SysReplyView;
use crate::pcube::common::sm_model::GoalView;
use crate::pcube::common::sm_model::PendingView;
use crate::pcube::common::sm_model::SegmentState;
use crate::pcube::common::sm_world::attached_to;
use crate::pcube::common::sm_world::failed;
use crate::pcube::common::sm_world::resized;
use crate::pcube::common::sm_world::run;
use crate::pcube::common::sm_world::serve;
use crate::pcube::common::sm_world::succeeded;
use crate::pcube::common::sm_world::Objects;
use crate::pcube::common::sm_world::Run;

verus! {

/// No operation changes the page size that the manager was made with, so a
/// manager that is well formed stays so.
pub proof fn lemma_page_size_stays(
    state: SegmentState,
    name: Seq<char>,
    payload: Seq<u8>,
    len: nat,
    unlink: bool,
    reply: SysReplyView,
)
    ensures
        state.connect(name).0.page_size == state.page_size,
        state.update_map().0.page_size == state.page_size,
        state.write(payload).0.page_size == state.page_size,
        state.read(len).0.page_size == state.page_size,
        state.disconnect(unlink).0.page_size == state.page_size,
        state.resume(reply).0.page_size == state.page_size,
{
}

/// Whether the manager is tidy: where it holds no handle, nothing is recorded
/// as mapped; a call that sizes, resizes or maps the object is in flight only
/// with a handle; and a call that follows the unmapping in a disconnect is in
/// flight only with nothing recorded as mapped.
pub open spec fn tidy(state: SegmentState) -> bool {
    &&& !state.attached ==> state.mapped_size == 0
    &&& state.pending is Sizing || state.pending is Mapping || state.pending is Probing
        || state.pending is Resizing ==> state.attached
    &&& state.pending is Unlinking || state.pending is Closing ==> state.mapped_size == 0
}

/// Every manager is tidy: a new one is, and every operation and every reply
/// keep it so. So the mapped size is 0 before the first connect that
/// succeeded and after every disconnect.
pub proof fn lemma_stays_tidy(
    state: SegmentState,
    page_size: nat,
    name: Seq<char>,
    payload: Seq<u8>,
    len: nat,
    unlink: bool,
    reply: SysReplyView,
)
    requires
        tidy(state),
    ensures
        tidy(SegmentState::fresh(page_size)),
        tidy(state.connect(name).0),
        tidy(state.update_map().0),
        tidy(state.write(payload).0),
        tidy(state.read(len).0),
        tidy(state.disconnect(unlink).0),
        tidy(state.resume(reply).0),
{
}

/// Whether the call in flight belongs to a disconnect.
pub open spec fn cleaning_up(pending: PendingView) -> bool {
    pending is Unmapping || pending is Unlinking || pending is Closing
}

/// A connect, a refresh, a write or a read whose call fails ends in failure at
/// once: no further call is asked for, and what the manager records of the
/// segment stays as it was.
pub proof fn lemma_failed_call_ends_operation(state: SegmentState)
    requires
        !(state.pending is Idle),
        !cleaning_up(state.pending),
    ensures
        state.resume(SysReplyView::Failed) == (
            state.waiting(PendingView::Idle),
            StepView::Finished(EExitCode::FAIL, Seq::<char>::empty()),
        ),
{
}

/// Whether a connect, a refresh, a write or a read is in progress.
pub open spec fn working(pending: PendingView) -> bool {
    !(pending is Idle) && !cleaning_up(pending)
}

/// The first call that fails is the last call of a connect, a refresh, a write
/// or a read, and the operation ends in failure, whatever the system answered
/// to the calls before it.
pub proof fn lemma_fault_ends_operation(
    state: SegmentState,
    call: SysCallView,
    objects: Objects,
    faults: Seq<bool>,
    at: int,
)
    requires
        working(state.pending),
        0 <= at < faults.len(),
        faults[at],
        forall|i: int| 0 <= i < at ==> !#[trigger] faults[i],
    ensures
        ({
            let end = run(state, StepView::Call(call), objects, faults);
            &&& end.step is Finished
            &&& end.calls.len() <= at + 1
            &&& end.calls.len() == at + 1 ==> failed(end.step)
        }),
    decreases at,
{
    reveal_with_fuel(run, 2);
    if at > 0 {
        let served = serve(objects, state.name, call);
        let next = state.resume(served.1);
        match next.1 {
            StepView::Call(next_call) => {
                let rest = faults.drop_first();
                assert(rest[at - 1] == faults[at]);
                assert forall|i: int| 0 <= i < at - 1 implies !#[trigger] rest[i] by {
                    assert(rest[i] == faults[i + 1]);
                }
                lemma_fault_ends_operation(next.0, next_call, served.0, rest, at - 1);
            },
            StepView::Finished(code, text) => {},
        }
    }
}

/// Whether `end` is the end of a connect, a refresh, a write or a read that
/// began in `state`: the operation is over, in success or in failure, and the
/// manager holds the handle it held, for the object that is still there.
pub open spec fn ended(state: SegmentState, objects: Objects, name: Seq<char>, end: Run) -> bool {
    &&& end.step is Finished
    &&& end.state.pending is Idle
    &&& end.state.page_size == state.page_size
    &&& attached_to(end.state, end.objects, name)
    &&& end.objects.dom() == objects.dom()
}

/// Whether a write of `payload` left the manager and the object as a write
/// should: the mapped size and the object's size are both `needed`, and the
/// object begins with the payload.
pub open spec fn written(end: Run, name: Seq<char>, payload: Seq<u8>, needed: nat) -> bool {
    &&& end.state.mapped_size == needed
    &&& end.objects[name].len() == needed
    &&& end.objects[name].subrange(0, payload.len() as int) == payload
}

/// Whether none of the calls maps a region or resizes the object.
pub open spec fn no_remap(calls: Seq<SysCallView>) -> bool {
    forall|i: int|
        0 <= i < calls.len() ==> !(#[trigger] calls[i] is MapRegion) && !(calls[i] is Truncate)
}

/// Whether none of the first `count` calls fails.
pub open spec fn no_fault(faults: Seq<bool>, count: int) -> bool {
    forall|i: int| 0 <= i < count && i < faults.len() ==> !#[trigger] faults[i]
}

proof fn lemma_place_runs(
    state: SegmentState,
    payload: Seq<u8>,
    objects: Objects,
    name: Seq<char>,
    faults: Seq<bool>,
)
    requires
        attached_to(state, objects, name),
        faults.len() >= 1,
        payload.len() <= objects[name].len(),
        state.mapped_size == objects[name].len(),
    ensures
        ({
            let begun = state.place(payload);
            let end = run(begun.0, begun.1, objects, faults);
            &&& ended(state, objects, name, end)
            &&& succeeded(end.step) || failed(end.step)
            &&& succeeded(end.step) ==> written(end, name, payload, state.mapped_size)
            &&& !faults[0] ==> succeeded(end.step)
            &&& no_remap(end.calls)
            &&& end.state.mapped_size == state.mapped_size
        }),
{
    reveal_with_fuel(run, 2);
    let begun = state.place(payload);
    let end = run(begun.0, begun.1, objects, faults);
    assert(end.objects.dom() =~= objects.dom());
    if succeeded(end.step) {
        assert(end.objects[name].subrange(0, payload.len() as int) =~= payload);
    }
    if state.mapped_size == 0 {
        assert(end.calls =~= Seq::empty());
    } else {
        assert(end.calls =~= seq![SysCallView::Store { bytes: payload }]);
    }
}

proof fn lemma_settle_write_runs(
    state: SegmentState,
    payload: Seq<u8>,
    objects: Objects,
    name: Seq<char>,
    faults: Seq<bool>,
)
    requires
        attached_to(state, objects, name),
        faults.len() >= 2,
        payload.len() <= objects[name].len(),
    ensures
        ({
            let size = objects[name].len();
            let begun = state.settle(GoalView::Write(payload), size);
            let end = run(begun.0, begun.1, objects, faults);
            &&& ended(state, objects, name, end)
            &&& succeeded(end.step) || failed(end.step)
            &&& succeeded(end.step) ==> written(end, name, payload, size)
            &&& state.mapped_size == size ==> {
                &&& no_remap(end.calls)
                &&& end.state.mapped_size == size
                &&& !faults[0] ==> succeeded(end.step)
            }
            &&& no_fault(faults, 2) && size > 0 ==> succeeded(end.step)
        }),
{
    reveal_with_fuel(run, 2);
    let size = objects[name].len();
    if state.mapped_size == size {
        lemma_place_runs(state, payload, objects, name, faults);
    } else if size > 0 && !faults[0] {
        let mapped = SegmentState { mapped_size: size, ..state.waiting(PendingView::Idle) };
        lemma_place_runs(mapped, payload, objects, name, faults.drop_first());
        assert(faults.drop_first()[0] == faults[1]);
    }
}

proof fn lemma_refresh_write_runs(
    state: SegmentState,
    payload: Seq<u8>,
    objects: Objects,
    name: Seq<char>,
    faults: Seq<bool>,
)
    requires
        attached_to(state, objects, name),
        faults.len() >= 3,
        payload.len() <= objects[name].len(),
    ensures
        ({
            let begun = state.refresh(GoalView::Write(payload));
            let end = run(begun.0, begun.1, objects, faults);
            &&& ended(state, objects, name, end)
            &&& succeeded(end.step) || failed(end.step)
            &&& succeeded(end.step) ==> written(end, name, payload, objects[name].len())
            &&& no_fault(faults, 3) && objects[name].len() > 0 ==> succeeded(end.step)
        }),
{
    reveal_with_fuel(run, 2);
    if !faults[0] {
        let rest = faults.drop_first();
        lemma_settle_write_runs(state.waiting(PendingView::Idle), payload, objects, name, rest);
        assert(rest[0] == faults[1] && rest[1] == faults[2]);
    }
}

/// What a write is, on a system that answers as `serve` does but for the
/// calls that `faults` makes fail: it ends in success or in failure; a
/// success leaves the mapped size and the object's size at the payload's
/// rounded size, with the payload at the object's start; a write into an
/// object that has that size already, mapped at that size, maps and resizes
/// nothing; and a write of a payload that is not empty succeeds unless a call
/// fails or no `usize` holds the rounded size.
pub proof fn lemma_write_runs(
    state: SegmentState,
    payload: Seq<u8>,
    objects: Objects,
    name: Seq<char>,
    faults: Seq<bool>,
)
    requires
        state.page_size > 0,
        attached_to(state, objects, name),
        faults.len() >= 5,
    ensures
        ({
            let needed = best_size(payload.len(), state.page_size);
            let begun = state.write(payload);
            let end = run(begun.0, begun.1, objects, faults);
            &&& ended(state, objects, name, end)
            &&& succeeded(end.step) || failed(end.step)
            &&& succeeded(end.step) ==> written(end, name, payload, needed) && needed
                <= usize::MAX
            &&& state.mapped_size == needed && objects[name].len() == needed ==> {
                &&& no_remap(end.calls)
                &&& end.state.mapped_size == needed
                &&& needed <= usize::MAX && !faults[0] && !faults[1] ==> succeeded(end.step)
            }
            &&& no_fault(faults, 5) && 0 < needed <= usize::MAX ==> succeeded(end.step)
        }),
{
    let needed = best_size(payload.len(), state.page_size);
    lemma_best_size_bounds(payload.len(), state.page_size);
    let idle = state.waiting(PendingView::Idle);
    let object = objects[name];
    reveal_with_fuel(run, 3);
    if needed > usize::MAX || faults[0] {
    } else if object.len() != needed {
        if !faults[1] {
            let resized_objects = objects.insert(name, resized(object, needed));
            let rest = faults.drop_first().drop_first();
            assert(resized_objects.dom() =~= objects.dom());
            lemma_refresh_write_runs(idle, payload, resized_objects, name, rest);
            assert(rest[0] == faults[2] && rest[1] == faults[3] && rest[2] == faults[4]);
        }
    } else {
        let rest = faults.drop_first();
        lemma_settle_write_runs(idle, payload, objects, name, rest);
        assert(rest[0] == faults[1] && rest[1] == faults[2]);
    }
}

/// After a write that succeeded, the mapped size is the payload's length
/// rounded up to whole pages: a multiple of the page size, and no less than
/// the payload's length. This holds of every manager, with a handle or
/// without, on a system that answers as `serve` does but for the calls that
/// `faults` makes fail.
pub proof fn lemma_write_page_aligned(
    state: SegmentState,
    payload: Seq<u8>,
    objects: Objects,
    faults: Seq<bool>,
)
    requires
        state.wf(),
        faults.len() >= 5,
    ensures
        ({
            let begun = state.write(payload);
            let end = run(begun.0, begun.1, objects, faults);
            succeeded(end.step) ==> {
                &&& end.state.mapped_size == best_size(payload.len(), state.page_size)
                &&& end.state.mapped_size % state.page_size == 0
                &&& end.state.mapped_size >= payload.len()
            }
        }),
{
    lemma_best_size_bounds(payload.len(), state.page_size);
    reveal_with_fuel(run, 2);
    match state.name {
        Some(name) if state.attached && objects.dom().contains(name) => {
            lemma_write_runs(state, payload, objects, name, faults);
        },
        _ => {},
    }
}

/// A write on a manager that holds no handle makes no call, and it succeeds
/// only where the payload is empty and nothing is mapped.
pub proof fn lemma_write_needs_handle(state: SegmentState, payload: Seq<u8>)
    requires
        state.wf(),
        !state.attached,
    ensures
        state.write(payload).1 is Finished,
        succeeded(state.write(payload).1) <==> payload.len() == 0 && state.mapped_size == 0,
{
    lemma_best_size_bounds(payload.len(), state.page_size);
    lemma_best_size_closed_form(payload.len(), state.page_size);
}

/// A second write whose payload rounds to the same size as the first one's
/// maps nothing and resizes nothing, and leaves the mapped size as the first
/// write left it; and it succeeds unless one of its own two calls fails.
pub proof fn lemma_rewrite_keeps_mapping(
    state: SegmentState,
    first: Seq<u8>,
    second: Seq<u8>,
    objects: Objects,
    name: Seq<char>,
    first_faults: Seq<bool>,
    second_faults: Seq<bool>,
)
    requires
        state.page_size > 0,
        attached_to(state, objects, name),
        first_faults.len() >= 5,
        second_faults.len() >= 5,
        best_size(first.len(), state.page_size) == best_size(second.len(), state.page_size),
    ensures
        ({
            let begun = state.write(first);
            let once = run(begun.0, begun.1, objects, first_faults);
            let again = once.state.write(second);
            let twice = run(again.0, again.1, once.objects, second_faults);
            succeeded(once.step) ==> {
                &&& no_remap(twice.calls)
                &&& twice.state.mapped_size == once.state.mapped_size
                &&& !second_faults[0] && !second_faults[1] ==> succeeded(twice.step)
            }
        }),
{
    lemma_write_runs(state, first, objects, name, first_faults);
    let begun = state.write(first);
    let once = run(begun.0, begun.1, objects, first_faults);
    if succeeded(once.step) {
        lemma_write_runs(once.state, second, once.objects, name, second_faults);
    }
}

proof fn lemma_fetch_runs(
    state: SegmentState,
    len: nat,
    objects: Objects,
    name: Seq<char>,
    faults: Seq<bool>,
)
    requires
        attached_to(state, objects, name),
        faults.len() >= 1,
        state.mapped_size == objects[name].len(),
    ensures
        ({
            let begun = state.fetch(len);
            let end = run(begun.0, begun.1, objects, faults);
            let front = objects[name].subrange(0, len as int);
            let readable = 0 < objects[name].len() && len <= objects[name].len() && valid_utf8(
                front,
            );
            &&& ended(state, objects, name, end)
            &&& end.objects == objects
            &&& end.step == StepView::Finished(EExitCode::SUCCESS, decode_utf8(front)) || failed(
                end.step,
            )
            &&& !failed(end.step) ==> readable
            &&& readable && !faults[0] ==> !failed(end.step)
        }),
{
    reveal_with_fuel(run, 2);
}

/// What a read is, on a system that answers as `serve` does but for the calls
/// that `faults` makes fail: it changes no object, it returns the text of the
/// object's first `len` bytes or fails, and it succeeds exactly where those
/// bytes are there to be mapped and are valid UTF-8, unless a call fails.
pub proof fn lemma_read_runs(
    state: SegmentState,
    len: nat,
    objects: Objects,
    name: Seq<char>,
    faults: Seq<bool>,
)
    requires
        attached_to(state, objects, name),
        faults.len() >= 3,
    ensures
        ({
            let begun = state.read(len);
            let end = run(begun.0, begun.1, objects, faults);
            let front = objects[name].subrange(0, len as int);
            let readable = 0 < objects[name].len() && len <= objects[name].len() && valid_utf8(
                front,
            );
            &&& ended(state, objects, name, end)
            &&& end.objects == objects
            &&& end.step == StepView::Finished(EExitCode::SUCCESS, decode_utf8(front)) || failed(
                end.step,
            )
            &&& !failed(end.step) ==> readable
            &&& readable && no_fault(faults, 3) ==> !failed(end.step)
        }),
{
    reveal_with_fuel(run, 2);
    let size = objects[name].len();
    let idle = state.waiting(PendingView::Idle);
    if !faults[0] {
        if state.mapped_size == size {
            lemma_fetch_runs(idle, len, objects, name, faults.drop_first());
            assert(faults.drop_first()[0] == faults[1]);
        } else if size > 0 && !faults[1] {
            let mapped = SegmentState { mapped_size: size, ..idle };
            lemma_fetch_runs(mapped, len, objects, name, faults.drop_first().drop_first());
            assert(faults.drop_first().drop_first()[0] == faults[2]);
        }
    }
}

/// A read of as many bytes as a payload has returns the text that was written
/// last: no read on the same object gives any other text, and the read
/// succeeds unless the payload is empty or one of its own calls fails.
pub proof fn lemma_read_returns_what_was_written(
    writer: SegmentState,
    reader: SegmentState,
    text: Seq<char>,
    objects: Objects,
    name: Seq<char>,
    write_faults: Seq<bool>,
    read_faults: Seq<bool>,
)
    requires
        writer.page_size > 0,
        attached_to(writer, objects, name),
        attached_to(reader, objects, name),
        write_faults.len() >= 5,
        read_faults.len() >= 3,
    ensures
        ({
            let payload = encode_utf8(text);
            let begun = writer.write(payload);
            let wrote = run(begun.0, begun.1, objects, write_faults);
            let asked = reader.read(payload.len());
            let got = run(asked.0, asked.1, wrote.objects, read_faults);
            succeeded(wrote.step) ==> {
                &&& got.step == StepView::Finished(EExitCode::SUCCESS, text) || failed(got.step)
                &&& payload.len() > 0 && no_fault(read_faults, 3) ==> !failed(got.step)
            }
        }),
{
    let payload = encode_utf8(text);
    let begun = writer.write(payload);
    let wrote = run(begun.0, begun.1, objects, write_faults);
    lemma_write_runs(writer, payload, objects, name, write_faults);
    if succeeded(wrote.step) {
        lemma_best_size_bounds(payload.len(), writer.page_size);
        lemma_read_runs(reader, payload.len(), wrote.objects, name, read_faults);
        encode_utf8_valid_utf8(text);
        encode_utf8_decode_utf8(text);
    }
}

/// What a connect is, on a system that answers as `serve` does but for the
/// calls that `faults` makes fail: an object that is absent is created
/// empty, a success leaves the manager with a handle and a mapping of the
/// object's size, and a manager that has nothing mapped succeeds unless a call
/// fails.
pub proof fn lemma_connect_runs(
    state: SegmentState,
    objects: Objects,
    name: Seq<char>,
    faults: Seq<bool>,
)
    requires
        faults.len() >= 3,
    ensures
        ({
            let begun = state.connect(name);
            let end = run(begun.0, begun.1, objects, faults);
            let present = if objects.dom().contains(name) {
                objects
            } else {
                objects.insert(name, Seq::empty())
            };
            &&& end.step is Finished
            &&& succeeded(end.step) || failed(end.step)
            &&& end.state.page_size == state.page_size
            &&& end.state.pending is Idle
            &&& end.state.name == Some(name)
            &&& end.objects == if faults[0] {
                objects
            } else {
                present
            }
            &&& succeeded(end.step) ==> {
                &&& attached_to(end.state, end.objects, name)
                &&& end.state.mapped_size == end.objects[name].len()
            }
            &&& no_fault(faults, 3) && (state.mapped_size == 0 || present[name].len() > 0)
                ==> succeeded(end.step)
        }),
{
    reveal_with_fuel(run, 4);
}

/// What a disconnect is, on a system that answers as `serve` does but for
/// the calls that `faults` makes fail: it always succeeds, and it always ends
/// with no handle held and nothing recorded as mapped; it changes no object
/// unless it is to remove one; and where no call fails, the object is removed
/// if that was asked for.
pub proof fn lemma_disconnect_runs(
    state: SegmentState,
    unlink: bool,
    objects: Objects,
    faults: Seq<bool>,
)
    requires
        faults.len() >= 3,
    ensures
        ({
            let begun = state.disconnect(unlink);
            let end = run(begun.0, begun.1, objects, faults);
            &&& succeeded(end.step)
            &&& end.state.pending is Idle
            &&& end.state.page_size == state.page_size
            &&& end.state.name == state.name
            &&& !end.state.attached
            &&& end.state.mapped_size == 0
            &&& !unlink ==> end.objects == objects
            &&& no_fault(faults, 3) ==> end.objects == match state.name {
                Some(name) if unlink => objects.remove(name),
                _ => objects,
            }
        }),
{
    reveal_with_fuel(run, 4);
    let begun = state.disconnect(unlink);
    let end = run(begun.0, begun.1, objects, faults);
    if no_fault(faults, 3) {
        assert(!faults[0] && !faults[1] && !faults[2]);
        match state.name {
            Some(name) if unlink => {
                assert(end.objects =~= objects.remove(name));
            },
            _ => {},
        }
    }
}

/// After a disconnect that removes the object and in which no call fails,
/// the manager records no mapping and the name has no object; a connect under
/// that name then creates an empty one, maps nothing, and succeeds unless one
/// of its own calls fails.
pub proof fn lemma_clean_removal(
    state: SegmentState,
    name: Seq<char>,
    objects: Objects,
    disconnect_faults: Seq<bool>,
    connect_faults: Seq<bool>,
)
    requires
        state.name == Some(name),
        disconnect_faults.len() >= 3,
        connect_faults.len() >= 3,
        no_fault(disconnect_faults, 3),
    ensures
        ({
            let begun = state.disconnect(true);
            let gone = run(begun.0, begun.1, objects, disconnect_faults);
            let again = gone.state.connect(name);
            let back = run(again.0, again.1, gone.objects, connect_faults);
            &&& succeeded(gone.step)
            &&& !gone.state.attached
            &&& gone.state.mapped_size == 0
            &&& !gone.objects.dom().contains(name)
            &&& succeeded(back.step) || failed(back.step)
            &&& succeeded(back.step) ==> {
                &&& attached_to(back.state, back.objects, name)
                &&& back.objects[name] == Seq::<u8>::empty()
                &&& back.state.mapped_size == 0
            }
            &&& no_fault(connect_faults, 3) ==> succeeded(back.step)
        }),
{
    lemma_disconnect_runs(state, true, objects, disconnect_faults);
    let begun = state.disconnect(true);
    let gone = run(begun.0, begun.1, objects, disconnect_faults);
    lemma_connect_runs(gone.state, gone.objects, name, connect_faults);
}

} // verus!
