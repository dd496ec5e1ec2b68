//! The calls that the segment manager asks for, and their outcomes.

use vstd::prelude::*;
use crate::pcube::common::enums::EExitCode;

verus! {

/// The permission bits of an object that its owner, and nobody else, may read
/// and write.
pub const OWNER_READ_WRITE: u32 = 0o600;

/// A call that the segment manager asks its caller to make on the operating
/// system. Every call but `Open` and `Unlink` is made on the handle or the
/// mapping that the last successful `Open` or `MapRegion` gave.
#[derive(Debug)]
pub enum SysCall {
    /// Open the shared-memory object of this name for reading and writing,
    /// creating it with these permission bits if it is absent.
    Open { name: String, mode: u32 },
    /// Ask for the object's real size in bytes.
    Stat,
    /// Map the first `len` bytes of the object, readable, writable and shared.
    /// The new region takes the place of the one that the caller still holds
    /// from an earlier `MapRegion`, if any: once the new region is there, the
    /// caller unmaps the old one, and the call has succeeded whether or not
    /// that unmapping does.
    MapRegion { len: usize },
    /// Unmap the region of `len` bytes that was mapped last. The manager asks
    /// for this only in a disconnect.
    UnmapRegion { len: usize },
    /// Truncate or extend the object to `len` bytes.
    Truncate { len: usize },
    /// Remove the object of this name from the system's namespace.
    Unlink { name: String },
    /// Release the handle.
    Close,
    /// Copy these bytes into the mapped region, from offset 0.
    Store { bytes: Vec<u8> },
    /// Copy `len` bytes out of the mapped region, from offset 0.
    Load { len: usize },
}

/// What a `SysCall` is as a mathematical value.
pub enum SysCallView {
    Open { name: Seq<char>, mode: u32 },
    Stat,
    MapRegion { len: nat },
    UnmapRegion { len: nat },
    Truncate { len: nat },
    Unlink { name: Seq<char> },
    Close,
    Store { bytes: Seq<u8> },
    Load { len: nat },
}

impl View for SysCall {
    type V = SysCallView;

    open spec fn view(&self) -> SysCallView {
        match *self {
            SysCall::Open { name, mode } => SysCallView::Open { name: name@, mode },
            SysCall::Stat => SysCallView::Stat,
            SysCall::MapRegion { len } => SysCallView::MapRegion { len: len as nat },
            SysCall::UnmapRegion { len } => SysCallView::UnmapRegion { len: len as nat },
            SysCall::Truncate { len } => SysCallView::Truncate { len: len as nat },
            SysCall::Unlink { name } => SysCallView::Unlink { name: name@ },
            SysCall::Close => SysCallView::Close,
            SysCall::Store { bytes } => SysCallView::Store { bytes: bytes@ },
            SysCall::Load { len } => SysCallView::Load { len: len as nat },
        }
    }
}

/// How a `SysCall` ended.
#[derive(Debug)]
pub enum SysReply {
    /// The call succeeded and has nothing to report.
    Done,
    /// The call failed.
    Failed,
    /// The answer to `Stat`: the object's real size.
    Size(usize),
    /// The answer to `Load`: the bytes that were copied out.
    Bytes(Vec<u8>),
}

/// What a `SysReply` is as a mathematical value.
pub enum SysReplyView {
    Done,
    Failed,
    Size(nat),
    Bytes(Seq<u8>),
}

impl View for SysReply {
    type V = SysReplyView;

    open spec fn view(&self) -> SysReplyView {
        match *self {
            SysReply::Done => SysReplyView::Done,
            SysReply::Failed => SysReplyView::Failed,
            SysReply::Size(size) => SysReplyView::Size(size as nat),
            SysReply::Bytes(bytes) => SysReplyView::Bytes(bytes@),
        }
    }
}

/// What the segment manager wants next: a call whose reply it waits for, or
/// nothing more, the operation having ended with this code and this text. The
/// text is empty but after a read that succeeded.
#[derive(Debug)]
pub enum Step {
    Call(SysCall),
    Finished(EExitCode, String),
}

/// What a `Step` is as a mathematical value.
pub enum StepView {
    Call(SysCallView),
    Finished(EExitCode, Seq<char>),
}

impl View for Step {
    type V = StepView;

    open spec fn view(&self) -> StepView {
        match *self {
            Step::Call(call) => StepView::Call(call@),
            Step::Finished(code, text) => StepView::Finished(code, text@),
        }
    }
}

} // verus!
