//! The segment manager as a mathematical value: what it records, and what each
//! operation and each reply make of it.

use vstd::prelude::*;
use vstd::utf8::decode_utf8;
use vstd::utf8::valid_utf8;
use crate::pcube::common::enums::EExitCode;
use crate::pcube::common::sizing::best_size;
use crate::pcube::common::sm_calls::StepView;
use crate::pcube::common::sm_calls::OWNER_READ_WRITE;
use crate::pcube::common::sm_calls::SysCallView;
use crate::pcube::common::sm_calls::SysReplyView;

verus! {

/// What a refresh of the mapping is done for, and so what follows it.
pub enum GoalView {
    /// Nothing follows: the refresh is the whole operation.
    Refresh,
    /// These bytes are then stored.
    Write(Seq<u8>),
    /// This many bytes are then loaded.
    Read(nat),
}

/// The call whose reply the segment manager waits for.
pub enum PendingView {
    /// None: no operation is in progress.
    Idle,
    /// `Open`, for a connect.
    Opening,
    /// `Stat`, to refresh the mapping.
    Sizing(GoalView),
    /// `MapRegion` of this many bytes, to refresh the mapping.
    Mapping(nat, GoalView),
    /// `Stat`, for a write of these bytes that needs this size.
    Probing(Seq<u8>, nat),
    /// `Truncate`, for a write of these bytes.
    Resizing(Seq<u8>),
    /// `Store`.
    Storing,
    /// `Load` of this many bytes.
    Loading(nat),
    /// `UnmapRegion`, for a disconnect that removes the object or does not.
    Unmapping(bool),
    /// `Unlink`.
    Unlinking,
    /// `Close`.
    Closing,
}

/// The segment manager as a mathematical value.
///
/// A region is mapped exactly while `mapped_size` is positive.
pub struct SegmentState {
    /// The name given to the last connect.
    pub name: Option<Seq<char>>,
    /// Whether a handle to the object is held.
    pub attached: bool,
    /// The size of the mapped region, 0 while none is mapped.
    pub mapped_size: nat,
    /// The system's page size.
    pub page_size: nat,
    /// The call in flight.
    pub pending: PendingView,
}

impl SegmentState {
    /// The manager before its first connect.
    pub open spec fn fresh(page_size: nat) -> SegmentState {
        SegmentState {
            name: None,
            attached: false,
            mapped_size: 0,
            page_size,
            pending: PendingView::Idle,
        }
    }

    /// Whether the manager is well formed: its page size is not 0. Every
    /// manager that `SMHandler::new` makes is, and every operation keeps it so.
    pub open spec fn wf(self) -> bool {
        self.page_size > 0
    }

    /// The same manager, waiting for the reply to another call.
    pub open spec fn waiting(self, pending: PendingView) -> SegmentState {
        SegmentState { pending, ..self }
    }

    /// The operation in progress ends with `code`.
    pub open spec fn finish(self, code: EExitCode) -> (SegmentState, StepView) {
        (self.waiting(PendingView::Idle), StepView::Finished(code, Seq::empty()))
    }

    /// Stores the bytes of a write, the mapping being as fresh as it will get.
    /// A payload that the region cannot hold fails the write, and so does any
    /// payload but the empty one where nothing is mapped. The empty payload
    /// needs no store where nothing is mapped.
    pub open spec fn place(self, bytes: Seq<u8>) -> (SegmentState, StepView) {
        if bytes.len() > self.mapped_size {
            self.finish(EExitCode::FAIL)
        } else if self.mapped_size == 0 {
            self.finish(EExitCode::SUCCESS)
        } else {
            (self.waiting(PendingView::Storing), StepView::Call(SysCallView::Store { bytes }))
        }
    }

    /// Loads the bytes of a read, the mapping being as fresh as it will get.
    /// The read fails where nothing is mapped or the region is shorter than
    /// `len`.
    pub open spec fn fetch(self, len: nat) -> (SegmentState, StepView) {
        if 0 < self.mapped_size && len <= self.mapped_size {
            (self.waiting(PendingView::Loading(len)), StepView::Call(SysCallView::Load { len }))
        } else {
            self.finish(EExitCode::FAIL)
        }
    }

    /// What follows a refresh that succeeded.
    pub open spec fn proceed(self, goal: GoalView) -> (SegmentState, StepView) {
        match goal {
            GoalView::Refresh => self.finish(EExitCode::SUCCESS),
            GoalView::Write(bytes) => self.place(bytes),
            GoalView::Read(len) => self.fetch(len),
        }
    }

    /// The refresh, once the object's real size is known: a mapping of that
    /// size stays; any other is replaced by one of that size, which `MapRegion`
    /// alone does, and where the object is empty there is nothing to map,
    /// which is a failure.
    pub open spec fn settle(self, goal: GoalView, size: nat) -> (SegmentState, StepView) {
        if self.mapped_size == size {
            self.proceed(goal)
        } else if size > 0 {
            (
                self.waiting(PendingView::Mapping(size, goal)),
                StepView::Call(SysCallView::MapRegion { len: size }),
            )
        } else {
            self.finish(EExitCode::FAIL)
        }
    }

    /// Begins a refresh of the mapping. Without a handle there is no object to
    /// ask, and its size counts as 0.
    pub open spec fn refresh(self, goal: GoalView) -> (SegmentState, StepView) {
        if self.attached {
            (self.waiting(PendingView::Sizing(goal)), StepView::Call(SysCallView::Stat))
        } else {
            self.settle(goal, 0)
        }
    }

    /// A write, once the object's real size is known: an object of another
    /// size than the payload needs is resized first.
    pub open spec fn probed(self, bytes: Seq<u8>, needed: nat, size: nat) -> (
        SegmentState,
        StepView,
    ) {
        if size != needed {
            (
                self.waiting(PendingView::Resizing(bytes)),
                StepView::Call(SysCallView::Truncate { len: needed }),
            )
        } else {
            self.settle(GoalView::Write(bytes), size)
        }
    }

    /// The last part of a disconnect: the handle is released if one is held.
    pub open spec fn release(self) -> (SegmentState, StepView) {
        if self.attached {
            (self.waiting(PendingView::Closing), StepView::Call(SysCallView::Close))
        } else {
            self.finish(EExitCode::SUCCESS)
        }
    }

    /// The middle part of a disconnect: the object is removed if that was asked
    /// for and a name is known.
    pub open spec fn remove(self, unlink: bool) -> (SegmentState, StepView) {
        match self.name {
            Some(name) if unlink => (
                self.waiting(PendingView::Unlinking),
                StepView::Call(SysCallView::Unlink { name }),
            ),
            _ => self.release(),
        }
    }

    /// Begins a connect under `name`: the object is opened, and created for
    /// its owner alone if it is absent.
    pub open spec fn connect(self, name: Seq<char>) -> (SegmentState, StepView) {
        (
            SegmentState { name: Some(name), pending: PendingView::Opening, ..self },
            StepView::Call(SysCallView::Open { name, mode: OWNER_READ_WRITE }),
        )
    }

    /// Begins a refresh of the mapping as an operation of its own.
    pub open spec fn update_map(self) -> (SegmentState, StepView) {
        self.refresh(GoalView::Refresh)
    }

    /// Begins a write of `bytes`. A payload whose rounded size no `usize` holds
    /// fails at once. Without a handle there is no object: its size counts as
    /// 0 and it cannot be resized, so the write fails unless that is the size
    /// the payload needs.
    pub open spec fn write(self, bytes: Seq<u8>) -> (SegmentState, StepView) {
        let needed = best_size(bytes.len(), self.page_size);
        if needed > usize::MAX {
            self.finish(EExitCode::FAIL)
        } else if self.attached {
            (self.waiting(PendingView::Probing(bytes, needed)), StepView::Call(SysCallView::Stat))
        } else if needed != 0 {
            self.finish(EExitCode::FAIL)
        } else {
            self.settle(GoalView::Write(bytes), 0)
        }
    }

    /// Begins a read of `len` bytes.
    pub open spec fn read(self, len: nat) -> (SegmentState, StepView) {
        self.refresh(GoalView::Read(len))
    }

    /// Begins a disconnect, which removes the object if `unlink` is set. It
    /// ends with nothing recorded as mapped and no handle held, whatever the
    /// replies are.
    pub open spec fn disconnect(self, unlink: bool) -> (SegmentState, StepView) {
        if self.mapped_size > 0 {
            (
                self.waiting(PendingView::Unmapping(unlink)),
                StepView::Call(SysCallView::UnmapRegion { len: self.mapped_size }),
            )
        } else {
            self.remove(unlink)
        }
    }

    /// Takes the reply to the call in flight and says what follows.
    ///
    /// While an operation other than a disconnect is in progress, any reply
    /// but the one that reports success ends it in failure. A disconnect goes
    /// on whatever the replies are and ends in success.
    pub open spec fn resume(self, reply: SysReplyView) -> (SegmentState, StepView) {
        let idle = self.waiting(PendingView::Idle);
        match self.pending {
            PendingView::Idle => idle.finish(EExitCode::FAIL),
            PendingView::Opening => match reply {
                SysReplyView::Done => SegmentState { attached: true, ..idle }.refresh(
                    GoalView::Refresh,
                ),
                _ => idle.finish(EExitCode::FAIL),
            },
            PendingView::Sizing(goal) => match reply {
                SysReplyView::Size(size) => idle.settle(goal, size),
                _ => idle.finish(EExitCode::FAIL),
            },
            PendingView::Mapping(len, goal) => match reply {
                SysReplyView::Done => SegmentState { mapped_size: len, ..idle }.proceed(goal),
                _ => idle.finish(EExitCode::FAIL),
            },
            PendingView::Probing(bytes, needed) => match reply {
                SysReplyView::Size(size) => idle.probed(bytes, needed, size),
                _ => idle.finish(EExitCode::FAIL),
            },
            PendingView::Resizing(bytes) => match reply {
                SysReplyView::Done => idle.refresh(GoalView::Write(bytes)),
                _ => idle.finish(EExitCode::FAIL),
            },
            PendingView::Storing => match reply {
                SysReplyView::Done => idle.finish(EExitCode::SUCCESS),
                _ => idle.finish(EExitCode::FAIL),
            },
            PendingView::Loading(len) => match reply {
                SysReplyView::Bytes(bytes) if bytes.len() == len && valid_utf8(bytes) => (
                    idle,
                    StepView::Finished(EExitCode::SUCCESS, decode_utf8(bytes)),
                ),
                _ => idle.finish(EExitCode::FAIL),
            },
            PendingView::Unmapping(unlink) => SegmentState { mapped_size: 0, ..idle }.remove(
                unlink,
            ),
            PendingView::Unlinking => idle.release(),
            PendingView::Closing => SegmentState { attached: false, ..idle }.finish(
                EExitCode::SUCCESS,
            ),
        }
    }
}

} // verus!
