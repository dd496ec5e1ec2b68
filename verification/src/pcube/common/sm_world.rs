//! A system that answers the segment manager's calls, as a mathematical value:
//! what is assumed of the operating system where a law speaks of it.

use vstd::prelude::*;
use crate::pcube::common::enums::EExitCode;
use crate::pcube::common::sm_calls::StepView;
use crate::pcube::common::sm_calls::SysCallView;
use crate::pcube::common::sm_calls::SysReplyView;
use crate::pcube::common::sm_model::SegmentState;

verus! {

/// The shared-memory objects of a system, each name with the bytes of its
/// object. An object's real size is the number of its bytes.
pub type Objects = Map<Seq<char>, Seq<u8>>;

/// An object's bytes after it was truncated or extended to `len` bytes: a
/// longer object loses its end, a shorter one is filled up with zeros.
pub open spec fn resized(bytes: Seq<u8>, len: nat) -> Seq<u8> {
    if len <= bytes.len() {
        bytes.subrange(0, len as int)
    } else {
        bytes + Seq::new((len - bytes.len()) as nat, |i: int| 0u8)
    }
}

/// An object's bytes after `bytes` were stored from offset 0.
pub open spec fn stored(object: Seq<u8>, bytes: Seq<u8>) -> Seq<u8>
    recommends
        bytes.len() <= object.len(),
{
    bytes + object.subrange(bytes.len() as int, object.len() as int)
}

/// What a system that never fails answers to a call, and what it then holds.
/// `name` is the object that the caller's handle is for.
///
/// `Open` creates an empty object where the name has none. `UnmapRegion` and
/// `Close` succeed. Every other call needs the object: `Stat` reports its
/// size, `Truncate` resizes it, `MapRegion` succeeds, `Store` and `Load`
/// need the bytes to lie within it.
pub open spec fn serve(objects: Objects, name: Option<Seq<char>>, call: SysCallView) -> (
    Objects,
    SysReplyView,
) {
    match call {
        SysCallView::Open { name: opened, mode } => if objects.dom().contains(opened) {
            (objects, SysReplyView::Done)
        } else {
            (objects.insert(opened, Seq::empty()), SysReplyView::Done)
        },
        SysCallView::Unlink { name: removed } => if objects.dom().contains(removed) {
            (objects.remove(removed), SysReplyView::Done)
        } else {
            (objects, SysReplyView::Failed)
        },
        SysCallView::UnmapRegion { len } => (objects, SysReplyView::Done),
        SysCallView::Close => (objects, SysReplyView::Done),
        _ => match name {
            Some(name) if objects.dom().contains(name) => {
                let object = objects[name];
                match call {
                    SysCallView::Stat => (objects, SysReplyView::Size(object.len())),
                    SysCallView::Truncate { len } => (
                        objects.insert(name, resized(object, len)),
                        SysReplyView::Done,
                    ),
                    SysCallView::Store { bytes } if bytes.len() <= object.len() => (
                        objects.insert(name, stored(object, bytes)),
                        SysReplyView::Done,
                    ),
                    SysCallView::Load { len } if len <= object.len() => (
                        objects,
                        SysReplyView::Bytes(object.subrange(0, len as int)),
                    ),
                    SysCallView::MapRegion { len } if 0 < len => (objects, SysReplyView::Done),
                    _ => (objects, SysReplyView::Failed),
                }
            },
            _ => (objects, SysReplyView::Failed),
        },
    }
}

/// Where an operation stands after some of its calls were made.
pub struct Run {
    pub state: SegmentState,
    pub step: StepView,
    pub objects: Objects,
    /// The calls that were made, in their order.
    pub calls: Seq<SysCallView>,
}

/// Carries an operation on from `step`, one call for each entry of `faults`:
/// a call whose entry is set fails and leaves the system as it is, and any
/// other is answered by `serve`. It stops where the operation is finished.
#[verifier::opaque]
pub open spec fn run(
    state: SegmentState,
    step: StepView,
    objects: Objects,
    faults: Seq<bool>,
) -> Run
    decreases faults.len(),
{
    match step {
        StepView::Call(call) if faults.len() > 0 => {
            let (served, reply) = if faults[0] {
                (objects, SysReplyView::Failed)
            } else {
                serve(objects, state.name, call)
            };
            let (next_state, next_step) = state.resume(reply);
            let rest = run(next_state, next_step, served, faults.drop_first());
            Run { calls: seq![call] + rest.calls, ..rest }
        },
        _ => Run { state, step, objects, calls: Seq::empty() },
    }
}

/// Whether the manager holds a handle for an object that exists.
pub open spec fn attached_to(state: SegmentState, objects: Objects, name: Seq<char>) -> bool {
    &&& state.attached
    &&& state.name == Some(name)
    &&& objects.dom().contains(name)
}

/// Whether a step is the end of an operation that succeeded and brought no
/// text.
pub open spec fn succeeded(step: StepView) -> bool {
    step == StepView::Finished(EExitCode::SUCCESS, Seq::<char>::empty())
}

/// Whether a step is the end of an operation that failed.
pub open spec fn failed(step: StepView) -> bool {
    step == StepView::Finished(EExitCode::FAIL, Seq::<char>::empty())
}

} // verus!
