//! The segment manager: the owner of one named, page-aligned, memory-mapped
//! shared segment, which decides every call and makes none.

use vstd::prelude::*;
use vstd::string::StrSliceExecFns;
use vstd::string::StringExecFns;
use vstd::string::StringSliceAdditionalSpecFns;
use vstd::utf8::encode_utf8;
use vstd::utf8::encode_utf8_decode_utf8;
use vstd::utf8::valid_utf8;
use crate::pcube::common::enums::EExitCode;
use crate::pcube::common::sizing::best_size;
use crate::pcube::common::sizing::round_to_pages;
use crate::pcube::common::sm_calls::Step;
use crate::pcube::common::sm_calls::SysCall;
use crate::pcube::common::sm_calls::SysReply;
use crate::pcube::common::sm_calls::OWNER_READ_WRITE;
use crate::pcube::common::sm_model::GoalView;
use crate::pcube::common::sm_model::PendingView;
use crate::pcube::common::sm_model::SegmentState;

verus! {

/// What a refresh of the mapping is done for.
enum Goal {
    Refresh,
    Write(Vec<u8>),
    Read(usize),
}

impl View for Goal {
    type V = GoalView;

    closed spec fn view(&self) -> GoalView {
        match *self {
            Goal::Refresh => GoalView::Refresh,
            Goal::Write(bytes) => GoalView::Write(bytes@),
            Goal::Read(len) => GoalView::Read(len as nat),
        }
    }
}

/// The call whose reply is waited for.
enum Pending {
    Idle,
    Opening,
    Sizing(Goal),
    Mapping(usize, Goal),
    Probing(Vec<u8>, usize),
    Resizing(Vec<u8>),
    Storing,
    Loading(usize),
    Unmapping(bool),
    Unlinking,
    Closing,
}

impl View for Pending {
    type V = PendingView;

    closed spec fn view(&self) -> PendingView {
        match *self {
            Pending::Idle => PendingView::Idle,
            Pending::Opening => PendingView::Opening,
            Pending::Sizing(goal) => PendingView::Sizing(goal@),
            Pending::Mapping(len, goal) => PendingView::Mapping(len as nat, goal@),
            Pending::Probing(bytes, needed) => PendingView::Probing(bytes@, needed as nat),
            Pending::Resizing(bytes) => PendingView::Resizing(bytes@),
            Pending::Storing => PendingView::Storing,
            Pending::Loading(len) => PendingView::Loading(len as nat),
            Pending::Unmapping(unlink) => PendingView::Unmapping(unlink),
            Pending::Unlinking => PendingView::Unlinking,
            Pending::Closing => PendingView::Closing,
        }
    }
}

/// `String::from_utf8` of std: the bytes make a `String` exactly when they are
/// valid UTF-8, and the string is then made of those very bytes.
#[verifier::external_body]
fn text_from_utf8(bytes: Vec<u8>) -> (text: Option<String>)
    ensures
        text is Some <==> valid_utf8(bytes@),
        text matches Some(t) ==> encode_utf8(t@) == bytes@,
{
    String::from_utf8(bytes).ok()
}

/// The manager of one named, page-aligned, memory-mapped shared segment.
///
/// It makes no system call itself. Each operation begins with the method of
/// its name, which returns the first `Step`; while the step is a call, the
/// caller makes that call and hands its outcome to `resume`, which returns the
/// next step. Beginning an operation abandons the one in progress.
pub struct SMHandler {
    sm_name: Option<String>,
    attached: bool,
    mapped_size: usize,
    system_page_size: usize,
    pending: Pending,
}

impl View for SMHandler {
    type V = SegmentState;

    closed spec fn view(&self) -> SegmentState {
        SegmentState {
            name: match self.sm_name {
                Some(name) => Some(name@),
                None => None,
            },
            attached: self.attached,
            mapped_size: self.mapped_size as nat,
            page_size: self.system_page_size as nat,
            pending: self.pending@,
        }
    }
}

impl SMHandler {
    /// A manager that is connected to nothing, for a system with this page
    /// size.
    pub fn new(system_page_size: usize) -> (handler: Self)
        requires
            system_page_size > 0,
        ensures
            handler@ == SegmentState::fresh(system_page_size as nat),
            handler@.wf(),
    {
        Self {
            sm_name: None,
            attached: false,
            mapped_size: 0,
            system_page_size,
            pending: Pending::Idle,
        }
    }

    /// The size that a segment needs for `minimal_size` bytes:
    /// `ceil(minimal_size / page_size) * page_size`, or `None` where no `usize`
    /// holds that.
    pub fn calculate_best_size(&self, minimal_size: usize) -> (best: Option<usize>)
        requires
            self@.wf(),
        ensures
            best == if best_size(minimal_size as nat, self@.page_size) <= usize::MAX {
                Some(best_size(minimal_size as nat, self@.page_size) as usize)
            } else {
                None
            },
    {
        round_to_pages(minimal_size, self.system_page_size)
    }

    /// The size of the mapped region, 0 while none is mapped.
    pub fn mapped_size(&self) -> (size: usize)
        ensures
            size == self@.mapped_size,
    {
        self.mapped_size
    }

    /// The system's page size that the manager was made with.
    pub fn page_size(&self) -> (size: usize)
        ensures
            size == self@.page_size,
    {
        self.system_page_size
    }

    /// Whether the manager holds a handle to an object.
    pub fn is_connected(&self) -> (connected: bool)
        ensures
            connected == self@.attached,
    {
        self.attached
    }

    fn finish(&mut self, code: EExitCode) -> (step: Step)
        ensures
            (final(self)@, step@) == old(self)@.finish(code),
    {
        self.pending = Pending::Idle;
        Step::Finished(code, String::new())
    }

    fn place(&mut self, bytes: Vec<u8>) -> (step: Step)
        ensures
            (final(self)@, step@) == old(self)@.place(bytes@),
    {
        if bytes.len() > self.mapped_size {
            self.finish(EExitCode::FAIL)
        } else if self.mapped_size == 0 {
            self.finish(EExitCode::SUCCESS)
        } else {
            self.pending = Pending::Storing;
            Step::Call(SysCall::Store { bytes })
        }
    }

    fn fetch(&mut self, len: usize) -> (step: Step)
        ensures
            (final(self)@, step@) == old(self)@.fetch(len as nat),
    {
        if 0 < self.mapped_size && len <= self.mapped_size {
            self.pending = Pending::Loading(len);
            Step::Call(SysCall::Load { len })
        } else {
            self.finish(EExitCode::FAIL)
        }
    }

    fn proceed(&mut self, goal: Goal) -> (step: Step)
        ensures
            (final(self)@, step@) == old(self)@.proceed(goal@),
    {
        match goal {
            Goal::Refresh => self.finish(EExitCode::SUCCESS),
            Goal::Write(bytes) => self.place(bytes),
            Goal::Read(len) => self.fetch(len),
        }
    }

    fn settle(&mut self, goal: Goal, size: usize) -> (step: Step)
        ensures
            (final(self)@, step@) == old(self)@.settle(goal@, size as nat),
    {
        if self.mapped_size == size {
            self.proceed(goal)
        } else if size > 0 {
            self.pending = Pending::Mapping(size, goal);
            Step::Call(SysCall::MapRegion { len: size })
        } else {
            self.finish(EExitCode::FAIL)
        }
    }

    fn refresh(&mut self, goal: Goal) -> (step: Step)
        ensures
            (final(self)@, step@) == old(self)@.refresh(goal@),
    {
        if self.attached {
            self.pending = Pending::Sizing(goal);
            Step::Call(SysCall::Stat)
        } else {
            self.settle(goal, 0)
        }
    }

    fn probed(&mut self, bytes: Vec<u8>, needed: usize, size: usize) -> (step: Step)
        ensures
            (final(self)@, step@) == old(self)@.probed(bytes@, needed as nat, size as nat),
    {
        if size != needed {
            self.pending = Pending::Resizing(bytes);
            Step::Call(SysCall::Truncate { len: needed })
        } else {
            self.settle(Goal::Write(bytes), size)
        }
    }

    fn release(&mut self) -> (step: Step)
        ensures
            (final(self)@, step@) == old(self)@.release(),
    {
        if self.attached {
            self.pending = Pending::Closing;
            Step::Call(SysCall::Close)
        } else {
            self.finish(EExitCode::SUCCESS)
        }
    }

    fn remove(&mut self, unlink: bool) -> (step: Step)
        ensures
            (final(self)@, step@) == old(self)@.remove(unlink),
    {
        if unlink {
            match &self.sm_name {
                Some(name) => {
                    let name = name.clone();
                    self.pending = Pending::Unlinking;
                    return Step::Call(SysCall::Unlink { name });
                },
                None => {},
            }
        }
        self.release()
    }

    /// Begins the refresh of the mapping: the object's real size is asked for,
    /// and a mapping of another size is replaced by one of that size. It fails
    /// where the object is empty and the recorded size is not 0, and where a
    /// call fails. Without a handle the size counts as 0 and no call is made.
    pub fn update_map(&mut self) -> (step: Step)
        ensures
            (final(self)@, step@) == old(self)@.update_map(),
    {
        self.refresh(Goal::Refresh)
    }

    /// Begins a connect: the object of this name is opened, or created for its
    /// owner alone if it is absent, and the mapping is then refreshed.
    pub fn connect(&mut self, sm_name: &str) -> (step: Step)
        ensures
            (final(self)@, step@) == old(self)@.connect(sm_name@),
    {
        self.sm_name = Some(String::from_str(sm_name));
        self.pending = Pending::Opening;
        Step::Call(SysCall::Open { name: String::from_str(sm_name), mode: OWNER_READ_WRITE })
    }

    /// Begins a disconnect: the region is unmapped if one is mapped, the object
    /// is removed if `unlink` is set, and the handle is released. No reply can
    /// make it fail, and whatever the replies are it ends with nothing
    /// recorded as mapped and no handle held.
    pub fn disconnect(&mut self, unlink: bool) -> (step: Step)
        ensures
            (final(self)@, step@) == old(self)@.disconnect(unlink),
    {
        if self.mapped_size > 0 {
            self.pending = Pending::Unmapping(unlink);
            Step::Call(SysCall::UnmapRegion { len: self.mapped_size })
        } else {
            self.remove(unlink)
        }
    }

    /// Begins a write of the payload's bytes: an object of another size than
    /// `ceil(len / page_size) * page_size` is resized to that, the mapping is
    /// refreshed, and the bytes are stored from offset 0. Without a handle
    /// only the empty payload can be written.
    pub fn write(&mut self, payload: &str) -> (step: Step)
        requires
            old(self)@.wf(),
        ensures
            (final(self)@, step@) == old(self)@.write(payload.spec_bytes()),
            final(self)@.wf(),
    {
        let bytes = payload.as_bytes_vec();
        match round_to_pages(bytes.len(), self.system_page_size) {
            None => self.finish(EExitCode::FAIL),
            Some(needed) => {
                if self.attached {
                    self.pending = Pending::Probing(bytes, needed);
                    Step::Call(SysCall::Stat)
                } else if needed != 0 {
                    self.finish(EExitCode::FAIL)
                } else {
                    self.settle(Goal::Write(bytes), 0)
                }
            },
        }
    }

    /// Begins a read of `payload_size` bytes: the mapping is refreshed, and
    /// that many bytes are loaded from offset 0 and returned as text if they
    /// are valid UTF-8.
    pub fn read(&mut self, payload_size: usize) -> (step: Step)
        ensures
            (final(self)@, step@) == old(self)@.read(payload_size as nat),
    {
        self.refresh(Goal::Read(payload_size))
    }

    /// Takes the outcome of the call that the last step asked for, and returns
    /// the next step.
    pub fn resume(&mut self, reply: SysReply) -> (step: Step)
        ensures
            (final(self)@, step@) == old(self)@.resume(reply@),
    {
        let mut pending = Pending::Idle;
        core::mem::swap(&mut self.pending, &mut pending);
        match pending {
            Pending::Idle => self.finish(EExitCode::FAIL),
            Pending::Opening => match reply {
                SysReply::Done => {
                    self.attached = true;
                    self.refresh(Goal::Refresh)
                },
                _ => self.finish(EExitCode::FAIL),
            },
            Pending::Sizing(goal) => match reply {
                SysReply::Size(size) => self.settle(goal, size),
                _ => self.finish(EExitCode::FAIL),
            },
            Pending::Mapping(len, goal) => match reply {
                SysReply::Done => {
                    self.mapped_size = len;
                    self.proceed(goal)
                },
                _ => self.finish(EExitCode::FAIL),
            },
            Pending::Probing(bytes, needed) => match reply {
                SysReply::Size(size) => self.probed(bytes, needed, size),
                _ => self.finish(EExitCode::FAIL),
            },
            Pending::Resizing(bytes) => match reply {
                SysReply::Done => self.refresh(Goal::Write(bytes)),
                _ => self.finish(EExitCode::FAIL),
            },
            Pending::Storing => match reply {
                SysReply::Done => self.finish(EExitCode::SUCCESS),
                _ => self.finish(EExitCode::FAIL),
            },
            Pending::Loading(len) => match reply {
                SysReply::Bytes(bytes) => {
                    if bytes.len() == len {
                        match text_from_utf8(bytes) {
                            Some(text) => {
                                proof {
                                    encode_utf8_decode_utf8(text@);
                                }
                                Step::Finished(EExitCode::SUCCESS, text)
                            },
                            None => self.finish(EExitCode::FAIL),
                        }
                    } else {
                        self.finish(EExitCode::FAIL)
                    }
                },
                _ => self.finish(EExitCode::FAIL),
            },
            Pending::Unmapping(unlink) => {
                self.mapped_size = 0;
                self.remove(unlink)
            },
            Pending::Unlinking => self.release(),
            Pending::Closing => {
                self.attached = false;
                self.finish(EExitCode::SUCCESS)
            },
        }
    }
}

} // verus!
