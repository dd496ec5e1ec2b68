//! The two ways in which an operation or a run ends.

use vstd::prelude::*;

verus! {

/// How an operation, or a whole run, ended.
#[allow(non_camel_case_types)]
#[derive(Clone, Copy, Debug, PartialEq, Eq, Structural)]
pub enum EExitCode {
    SUCCESS,
    FAIL,
}

} // verus!
