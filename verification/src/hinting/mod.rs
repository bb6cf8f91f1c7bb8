//! The TrueType hinting VM: the instruction set, the control-flow analysis of programs, and
//! the interpreter.

use vstd::prelude::*;

pub mod insns;
pub mod interp;
pub mod vm;

verus! {

/// How dropouts are handled when scan converting.
#[derive(Copy, Clone, PartialEq, Eq, Debug, Structural)]
pub enum ScanType {
    SimpleDropoutControlIncludingStubs,
    SimpleDropoutControlExcludingStubs,
    NoDropoutControl,
    SmartDropoutControlIncludingStubs,
    SmartDropoutControlExcludingStubs,
}

} // verus!
