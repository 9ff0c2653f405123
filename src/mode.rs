use vstd::prelude::*;
use crate::error::{NativeError, Status};

verus! {

/// Granularity of the segmentation: `A` is the finest, `C` the coarsest.
#[derive(Debug, Clone, Copy, PartialEq, Eq, Structural)]
pub enum SudachiMode {
    A,
    B,
    C,
}

/// How sentence splitting is combined with analysis.
#[derive(Debug, Clone, Copy, PartialEq, Eq, Structural)]
pub enum SentenceSplitMode {
    Default,
    Only,
    Disabled,
}

/// The mode that a host-side integer code selects, if any: 0, 1 and 2 stand
/// for `A`, `B` and `C`.
pub open spec fn mode_of_code(code: u32) -> Option<SudachiMode> {
    if code == 0 {
        Some(SudachiMode::A)
    } else if code == 1 {
        Some(SudachiMode::B)
    } else if code == 2 {
        Some(SudachiMode::C)
    } else {
        None
    }
}

impl SudachiMode {
    /// Reads a mode from its host-side code; any other code is an invalid argument.
    pub fn from_code(code: u32) -> (r: Result<SudachiMode, NativeError>)
        ensures
            mode_of_code(code) is Some <==> r is Ok,
            r is Ok ==> r->Ok_0 == mode_of_code(code)->0,
            r is Err ==> r->Err_0.status == Status::InvalidArg && r->Err_0.message@
                == "Invalid mode"@,
    {
        match code {
            0 => Ok(SudachiMode::A),
            1 => Ok(SudachiMode::B),
            2 => Ok(SudachiMode::C),
            _ => Err(NativeError::new(Status::InvalidArg, "Invalid mode")),
        }
    }

    /// The host-side code of this mode.
    pub fn code(self) -> (r: u32)
        ensures
            mode_of_code(r) == Some(self),
    {
        match self {
            SudachiMode::A => 0,
            SudachiMode::B => 1,
            SudachiMode::C => 2,
        }
    }
}

} // verus!
