//! The TrueType hinting virtual machine: its state, and the execution of one instruction.
//!
//! A program runs as a stack of frames, each a range of one of the scripts. Every step
//! decodes the instruction at the top frame's program counter and executes it; a frame whose
//! counter has reached its end is popped. Values on the stack are 32-bit integers, read as
//! 26.6 fixed-point numbers by the arithmetic instructions. Instructions that move outline
//! points are decoded and skipped.

use vstd::prelude::*;

use crate::hinting::insns::{is_push_bytes_op, is_push_words_op, Instruction, ParseError};
use crate::hinting::interp::{targets_sorted, BranchTarget, Frame, Script};
use crate::util::{be_i16, fits, i16_at};

verus! {

/// Errors that stop a hinting program.
#[derive(Copy, Clone, Debug, PartialEq, Eq, Structural)]
pub enum HintingExecutionError {
    /// An instruction could not be decoded.
    ParseError(ParseError),
    /// An instruction needed more values than the stack holds.
    StackUnderflow,
    /// `RCVT` read past the end of the control value table.
    CvtReadOutOfBounds,
    /// `CALL` named a function that was never defined.
    CallToUndefinedFunction,
    /// `WS` or `FDEF` was given a negative storage address or function number.
    NegativeIndex,
    /// An `IF`, `ELSE` or `FDEF` has no matched end in its script.
    BadBranchTarget,
}

/// How values are rounded to the pixel grid.
#[derive(Copy, Clone, Debug, PartialEq, Eq, Structural)]
pub enum RoundState {
    RoundToHalfGrid,
    RoundToGrid,
    RoundToDoubleGrid,
    RoundDownToGrid,
    RoundUpToGrid,
    RoundOff,
}

/// A unit vector in 2.14 fixed point.
#[derive(Copy, Clone, Debug, PartialEq, Eq, Structural)]
pub struct UnitVector {
    pub x: i16,
    pub y: i16,
}

/// The version of the interpreter that `GETINFO` reports.
pub const GETINFO_VERSION: i32 = 35;

/// The `GETINFO` selector bit that asks for the version.
pub const VERSION: i32 = 1;

/// The `GETINFO` selector bit that asks whether grayscale rendering is on.
pub const FONT_SMOOTHING_GRAYSCALE: i32 = 32;

/// What `GETINFO` answers when grayscale rendering is on: bit 12.
pub const INFO_RESULT_FONT_SMOOTHING_GRAYSCALE: i32 = 0x1000;

/// A script as the machine sees it: its program and its matched branches.
#[verifier::ext_equal]
pub struct ScriptView {
    pub bytecode: Seq<u8>,
    pub branch_targets: Seq<BranchTarget>,
}

/// The state of the machine.
#[verifier::ext_equal]
pub struct HinterState {
    pub stack: Seq<i32>,
    pub storage_area: Seq<i32>,
    pub control_value_table: Seq<i32>,
    pub functions: Seq<Option<Frame>>,
    pub call_stack: Seq<Frame>,
    pub scripts: Seq<ScriptView>,
    pub ppem: i32,
    pub projection_vector: UnitVector,
    pub freedom_vector: UnitVector,
    pub reference_points: (u32, u32, u32),
    pub zone_points: (u32, u32, u32),
    pub round_state: RoundState,
}

/// The state with another stack.
pub open spec fn with_stack(s: HinterState, stack: Seq<i32>) -> HinterState {
    HinterState { stack, ..s }
}

/// What an instruction that needs more values than the stack holds does: it pops them all
/// and fails.
pub open spec fn underflow(s: HinterState) -> (Result<(), HintingExecutionError>, HinterState) {
    (Err(HintingExecutionError::StackUnderflow), with_stack(s, Seq::empty()))
}

/// 1 for true, 0 for false.
pub open spec fn bool_value(b: bool) -> i32 {
    if b {
        1
    } else {
        0
    }
}

/// Integer division rounding toward zero (`b` nonzero).
pub open spec fn trunc_div(a: int, b: int) -> int {
    let q = (if a < 0 { -a } else { a }) / (if b < 0 { -b } else { b });
    if (a < 0) != (b < 0) {
        -q
    } else {
        q
    }
}

/// The product of two 26.6 numbers: the product of the integers divided by 64, rounding
/// toward zero, kept to 32 bits.
pub open spec fn f26dot6_mul(a: i32, b: i32) -> i32 {
    trunc_div(a * b, 64) as i32
}

/// The quotient of two 26.6 numbers: the dividend times 64 divided by the divisor, rounding
/// toward zero, kept to 32 bits; zero for a zero divisor.
pub open spec fn f26dot6_div(a: i32, b: i32) -> i32 {
    if b == 0 {
        0
    } else {
        trunc_div(a * 64, b as int) as i32
    }
}

/// The value a two-operand instruction pushes for the operands `lhs` (pushed first) and `rhs`:
/// comparisons and logic give 1 or 0, `ADD` and `SUB` wrap, `MUL` and `DIV` follow the 26.6
/// rules, `MAX` and `MIN` give the larger and the smaller.
pub open spec fn binary_value(op: u8, lhs: i32, rhs: i32) -> i32 {
    if op == 0x50 {
        bool_value(lhs < rhs)
    } else if op == 0x51 {
        bool_value(lhs <= rhs)
    } else if op == 0x52 {
        bool_value(lhs > rhs)
    } else if op == 0x53 {
        bool_value(lhs >= rhs)
    } else if op == 0x54 {
        bool_value(lhs == rhs)
    } else if op == 0x55 {
        bool_value(lhs != rhs)
    } else if op == 0x5a {
        bool_value(lhs != 0 && rhs != 0)
    } else if op == 0x5b {
        bool_value(lhs != 0 || rhs != 0)
    } else if op == 0x60 {
        lhs.wrapping_add(rhs)
    } else if op == 0x61 {
        lhs.wrapping_sub(rhs)
    } else if op == 0x62 {
        f26dot6_div(lhs, rhs)
    } else if op == 0x63 {
        f26dot6_mul(lhs, rhs)
    } else if op == 0x8b {
        if lhs >= rhs {
            lhs
        } else {
            rhs
        }
    } else {
        if lhs <= rhs {
            lhs
        } else {
            rhs
        }
    }
}

/// What a two-operand instruction `op` must leave for the operands `lhs` (pushed first) and
/// `rhs`: the comparisons `LT`, `LTEQ`, `GT`, `GTEQ`, `EQ`, `NEQ` and the logic `AND`, `OR` give
/// 1 when their relation holds and 0 otherwise; `ADD` and `SUB` give the sum and the difference
/// modulo 2^32; `MAX` and `MIN` give the operand that is at least (at most) both; `MUL` gives the
/// product of the 26.6 numbers, `lhs * rhs / 64` cut toward zero, and `DIV` gives
/// `lhs * 64 / rhs` cut toward zero, or 0 when `rhs` is 0 (both where the result fits in 32 bits).
pub open spec fn two_operand_result_ok(op: u8, lhs: i32, rhs: i32, v: i32) -> bool {
    let l = lhs as int;
    let r = rhs as int;
    let w = v as int;
    let ar = if r < 0 { -r } else { r };
    &&& op == 0x50 ==> w == (if l < r { 1int } else { 0int })
    &&& op == 0x51 ==> w == (if l <= r { 1int } else { 0int })
    &&& op == 0x52 ==> w == (if l > r { 1int } else { 0int })
    &&& op == 0x53 ==> w == (if l >= r { 1int } else { 0int })
    &&& op == 0x54 ==> w == (if l == r { 1int } else { 0int })
    &&& op == 0x55 ==> w == (if l != r { 1int } else { 0int })
    &&& op == 0x5a ==> w == (if l != 0 && r != 0 { 1int } else { 0int })
    &&& op == 0x5b ==> w == (if l != 0 || r != 0 { 1int } else { 0int })
    &&& op == 0x60 ==> (w - (l + r)) % 0x1_0000_0000 == 0
    &&& op == 0x61 ==> (w - (l - r)) % 0x1_0000_0000 == 0
    &&& op == 0x8b ==> w >= l && w >= r && (w == l || w == r)
    &&& op == 0x8c ==> w <= l && w <= r && (w == l || w == r)
    &&& op == 0x63 ==> (-0x20_0000_0000 < l * r < 0x20_0000_0000 ==> (l * r >= 0 ==> 0 <= l * r - 64
        * w < 64) && (l * r < 0 ==> 0 <= 64 * w - l * r < 64))
    &&& op == 0x62 ==> (r == 0 ==> w == 0)
    &&& op == 0x62 ==> (r != 0 && -0x8000_0000 * ar < 64 * l < 0x8000_0000 * ar ==> (64 * l >= 0 ==> 0
        <= 64 * l - w * r < ar && w * r >= 0) && (64 * l < 0 ==> 0 <= w * r - 64 * l < ar && w * r
        <= 0))
}

/// `binary_value` gives what `two_operand_result_ok` asks for.
proof fn lemma_binary_value_ok(op: u8, lhs: i32, rhs: i32)
    ensures
        two_operand_result_ok(op, lhs, rhs, binary_value(op, lhs, rhs)),
{
    let l = lhs as int;
    let r = rhs as int;
    if op == 0x63 {
        let p = l * r;
        if -0x20_0000_0000 < p < 0x20_0000_0000 {
            let ap = if p < 0 { -p } else { p };
            let q = ap / 64;
            assert(64 * q <= ap < 64 * q + 64);
            assert(trunc_div(p, 64) == if p < 0 { -q } else { q });
        }
    } else if op == 0x62 && r != 0 {
        let a = l * 64;
        let ar = if r < 0 { -r } else { r };
        let aa = if a < 0 { -a } else { a };
        if -0x8000_0000 * ar < 64 * l < 0x8000_0000 * ar {
            let q = aa / ar;
            vstd::arithmetic::div_mod::lemma_fundamental_div_mod(aa, ar);
            assert(ar * q <= aa < ar * q + ar);
            assert(q < 0x8000_0000) by (nonlinear_arith)
                requires
                    ar * q <= aa,
                    aa < 0x8000_0000 * ar,
                    ar > 0,
            ;
            assert(q >= 0) by (nonlinear_arith)
                requires
                    ar * q + ar > aa,
                    aa >= 0,
                    ar > 0,
            ;
            let t = trunc_div(a, r);
            assert(t == if (a < 0) != (r < 0) { -q } else { q });
            assert(r * t == if a < 0 { -(ar * q) } else { ar * q }) by (nonlinear_arith)
                requires
                    t == (if (a < 0) != (r < 0) { -q } else { q }),
                    ar == (if r < 0 { -r } else { r }),
            ;
            assert(binary_value(op, lhs, rhs) as int == t);
        }
    }
}

/// True for the opcodes of two-operand instructions.
pub open spec fn is_binary_op(op: u8) -> bool {
    (0x50 <= op <= 0x55) || op == 0x5a || op == 0x5b || (0x60 <= op <= 0x63) || op == 0x8b
        || op == 0x8c
}

/// What `GETINFO` answers for a selector: the version when bit 0 asks for it, and bit 12 set
/// when bit 5 asks whether grayscale rendering is on (it always is).
pub open spec fn getinfo_value(selector: i32) -> i32 {
    (if selector & VERSION != 0 { GETINFO_VERSION } else { 0 }) | (if selector
        & FONT_SMOOTHING_GRAYSCALE != 0 {
        INFO_RESULT_FONT_SMOOTHING_GRAYSCALE
    } else {
        0
    })
}

/// The value a one-operand instruction pushes: `NOT` gives 1 or 0, `ABS` and `NEG` wrap at the
/// least value, `GETINFO` answers its selector.
pub open spec fn unary_value(op: u8, v: i32) -> i32 {
    if op == 0x5c {
        bool_value(v == 0)
    } else if op == 0x64 {
        if v == i32::MIN {
            v
        } else if v < 0 {
            (-v) as i32
        } else {
            v
        }
    } else if op == 0x65 {
        if v == i32::MIN {
            v
        } else {
            (-v) as i32
        }
    } else {
        getinfo_value(v)
    }
}

/// What a one-operand instruction `op` must leave for the operand `x`: `NOT` gives 1 for 0 and 0
/// otherwise; `ABS` and `NEG` give the absolute value and the negation (the least `i32`, which
/// has neither, stays as it is); `GETINFO` answers 35 (the version) when bit 0 of `x` asks for
/// it, plus 0x1000 (grayscale rendering) when bit 5 asks for that.
pub open spec fn one_operand_result_ok(op: u8, x: i32, v: i32) -> bool {
    &&& op == 0x5c ==> v == (if x == 0 { 1i32 } else { 0i32 })
    &&& op == 0x64 ==> (x != i32::MIN ==> v as int == (if x < 0 { -x } else { x as int })) && (x
        == i32::MIN ==> v == x)
    &&& op == 0x65 ==> (x != i32::MIN ==> v as int == -x) && (x == i32::MIN ==> v == x)
    &&& op == 0x88 ==> v as int == (if x & 1 == 1 { 35int } else { 0int }) + (if x & 32 == 32 {
        0x1000int
    } else {
        0int
    })
}

/// `unary_value` gives what `one_operand_result_ok` asks for.
proof fn lemma_unary_value_ok(op: u8, x: i32)
    ensures
        one_operand_result_ok(op, x, unary_value(op, x)),
{
    if op == 0x88 {
        assert(x & 1 != 0 <==> x & 1 == 1) by (bit_vector);
        assert(x & 32 != 0 <==> x & 32 == 32) by (bit_vector);
        assert(35i32 | 0x1000i32 == 0x1023) by (bit_vector);
        assert(35i32 | 0i32 == 35) by (bit_vector);
        assert(0i32 | 0x1000i32 == 0x1000) by (bit_vector);
        assert(0i32 | 0i32 == 0) by (bit_vector);
    }
}

/// True for the opcodes of one-operand instructions.
pub open spec fn is_unary_op(op: u8) -> bool {
    op == 0x5c || op == 0x64 || op == 0x65 || op == 0x88
}

/// Executes a one- or two-operand instruction.
pub open spec fn arith_spec(s: HinterState, op: u8) -> (Result<(), HintingExecutionError>, HinterState) {
    let st = s.stack;
    let n = st.len();
    if is_binary_op(op) {
        if n < 2 {
            underflow(s)
        } else {
            (Ok(()), with_stack(s, st.take(n - 2).push(binary_value(op, st[n - 2], st[n - 1]))))
        }
    } else {
        if n < 1 {
            underflow(s)
        } else {
            (Ok(()), with_stack(s, st.drop_last().push(unary_value(op, st.last()))))
        }
    }
}

/// The storage area after writing `value` at `addr`, grown with zeros as needed.
pub open spec fn store(area: Seq<i32>, addr: int, value: i32) -> Seq<i32> {
    (if area.len() <= addr {
        area + Seq::new((addr + 1 - area.len()) as nat, |i: int| 0i32)
    } else {
        area
    }).update(addr, value)
}

/// The unit vector along the x axis (for an odd opcode) or the y axis.
pub open spec fn axis_vector(op: u8) -> UnitVector {
    if op % 2 == 1 {
        UnitVector { x: 0x4000, y: 0 }
    } else {
        UnitVector { x: 0, y: 0x4000 }
    }
}

/// Executes an instruction that reads or writes memory or the graphics state, or that
/// rearranges the stack: `RS`, `WS`, `RCVT`, the vector, reference-point, zone and rounding
/// setters, `SROUND` and `SCANCTRL` (which only pop), `MPPEM`, `DUP`, `POP`, `CLEAR`, `SWAP`
/// and `MINDEX`. Any other instruction does nothing.
pub open spec fn state_spec(s: HinterState, op: u8) -> (Result<(), HintingExecutionError>, HinterState) {
    let st = s.stack;
    let n = st.len();
    if op == 0x43 {
        if n < 1 {
            underflow(s)
        } else {
            let addr = st.last();
            let v = if 0 <= addr < s.storage_area.len() {
                s.storage_area[addr as int]
            } else {
                0
            };
            (Ok(()), with_stack(s, st.drop_last().push(v)))
        }
    } else if op == 0x42 {
        if n < 2 {
            underflow(s)
        } else if st[n - 2] < 0 {
            (Err(HintingExecutionError::NegativeIndex), with_stack(s, st.take(n - 2)))
        } else {
            (
                Ok(()),
                HinterState {
                    stack: st.take(n - 2),
                    storage_area: store(s.storage_area, st[n - 2] as int, st[n - 1]),
                    ..s
                },
            )
        }
    } else if op == 0x45 {
        if n < 1 {
            underflow(s)
        } else if 0 <= st.last() < s.control_value_table.len() {
            (Ok(()), with_stack(s, st.drop_last().push(s.control_value_table[st.last() as int])))
        } else {
            (Err(HintingExecutionError::CvtReadOutOfBounds), with_stack(s, st.drop_last()))
        }
    } else if op <= 0x05 {
        let v = axis_vector(op);
        (
            Ok(()),
            HinterState {
                projection_vector: if op <= 0x03 { v } else { s.projection_vector },
                freedom_vector: if op <= 0x01 || op >= 0x04 { v } else { s.freedom_vector },
                ..s
            },
        )
    } else if 0x10 <= op <= 0x16 {
        if n < 1 {
            underflow(s)
        } else {
            let v = st.last() as u32;
            let rp = s.reference_points;
            let zp = s.zone_points;
            succeed(
                HinterState {
                    stack: st.drop_last(),
                    reference_points: if op == 0x10 {
                        (v, rp.1, rp.2)
                    } else if op == 0x11 {
                        (rp.0, v, rp.2)
                    } else if op == 0x12 {
                        (rp.0, rp.1, v)
                    } else {
                        rp
                    },
                    zone_points: if op == 0x13 {
                        (v, zp.1, zp.2)
                    } else if op == 0x14 {
                        (zp.0, v, zp.2)
                    } else if op == 0x15 {
                        (zp.0, zp.1, v)
                    } else if op == 0x16 {
                        (v, v, v)
                    } else {
                        zp
                    },
                    ..s
                },
            )
        }
    } else if op == 0x19 || op == 0x18 || op == 0x3d || op == 0x7c || op == 0x7a {
        succeed(
            HinterState {
                round_state: if op == 0x19 {
                    RoundState::RoundToHalfGrid
                } else if op == 0x18 {
                    RoundState::RoundToGrid
                } else if op == 0x3d {
                    RoundState::RoundToDoubleGrid
                } else if op == 0x7c {
                    RoundState::RoundUpToGrid
                } else {
                    RoundState::RoundOff
                },
                ..s
            },
        )
    } else if op == 0x76 || op == 0x85 || op == 0x21 {
        if n < 1 {
            underflow(s)
        } else {
            succeed(with_stack(s, st.drop_last()))
        }
    } else if op == 0x4b {
        succeed(with_stack(s, st.push(s.ppem)))
    } else if op == 0x20 {
        if n < 1 {
            underflow(s)
        } else {
            succeed(with_stack(s, st.push(st.last())))
        }
    } else if op == 0x22 {
        succeed(with_stack(s, Seq::empty()))
    } else if op == 0x23 {
        if n < 2 {
            underflow(s)
        } else {
            succeed(with_stack(s, st.take(n - 2).push(st[n - 1]).push(st[n - 2])))
        }
    } else if op == 0x26 {
        if n < 1 {
            underflow(s)
        } else {
            let rest = st.drop_last();
            let index = st.last();
            if index < 0 || index >= rest.len() {
                (Err(HintingExecutionError::StackUnderflow), with_stack(s, rest))
            } else {
                let r = rest.len() - 1 - index;
                succeed(with_stack(s, rest.remove(r).push(rest[r])))
            }
        }
    } else {
        succeed(s)
    }
}

/// Success with the state `s`.
pub open spec fn succeed(s: HinterState) -> (Result<(), HintingExecutionError>, HinterState) {
    (Ok(()), s)
}

/// Where the branch at `pc` ends: the target of the branch entry located at `pc`, if there is
/// one.
pub open spec fn target_for(targets: Seq<BranchTarget>, pc: usize) -> Option<usize> {
    if exists|i: int| 0 <= i < targets.len() && #[trigger] targets[i].branch_location == pc {
        Some(
            targets[choose|i: int|
                0 <= i < targets.len() && #[trigger] targets[i].branch_location == pc].target_location,
        )
    } else {
        None
    }
}

/// The program counter just after the end of the branch at `pc`, if it has a matched end.
pub open spec fn after_target(targets: Seq<BranchTarget>, pc: usize) -> Option<int> {
    match target_for(targets, pc) {
        Some(t) => if t < usize::MAX {
            Some(t + 1)
        } else {
            None
        },
        None => None,
    }
}

/// Executes `IF`, `ELSE`, `FDEF` or `CALL` at `frame` (the top frame), the next instruction
/// starting at `next`: the outcome, the new state and the new program counter. `IF` with a
/// zero condition and `ELSE` jump past the matching `ELSE` or `EIF`; `FDEF` records the
/// function that runs from `next` up to its `ENDF` and jumps past it; `CALL` saves `next` in
/// the top frame and enters the function.
pub open spec fn control_spec(s: HinterState, frame: Frame, op: u8, next: int) -> (
    Result<(), HintingExecutionError>,
    HinterState,
    int,
) {
    let targets = s.scripts[frame.script as int].branch_targets;
    let st = s.stack;
    let n = st.len();
    if op == 0x1b {
        match after_target(targets, frame.pc) {
            Some(p) => (Ok(()), s, p),
            None => (Err(HintingExecutionError::BadBranchTarget), s, 0),
        }
    } else if n < 1 {
        (Err(HintingExecutionError::StackUnderflow), with_stack(s, Seq::empty()), 0)
    } else {
        let v = st.last();
        let rest = st.drop_last();
        if op == 0x58 {
            if v != 0 {
                (Ok(()), with_stack(s, rest), next)
            } else {
                match after_target(targets, frame.pc) {
                    Some(p) => (Ok(()), with_stack(s, rest), p),
                    None => (Err(HintingExecutionError::BadBranchTarget), with_stack(s, rest), 0),
                }
            }
        } else if op == 0x2c {
            if v < 0 {
                (Err(HintingExecutionError::NegativeIndex), with_stack(s, rest), 0)
            } else {
                let funcs = if s.functions.len() <= v {
                    s.functions + Seq::new((v + 1 - s.functions.len()) as nat, |i: int| None::<Frame>)
                } else {
                    s.functions
                };
                let s1 = HinterState { stack: rest, functions: funcs, ..s };
                match target_for(targets, frame.pc) {
                    Some(t) => if t < usize::MAX {
                        (
                            Ok(()),
                            HinterState {
                                functions: funcs.update(
                                    v as int,
                                    Some(Frame { pc: next as usize, end: t, script: frame.script }),
                                ),
                                ..s1
                            },
                            t + 1,
                        )
                    } else {
                        (Err(HintingExecutionError::BadBranchTarget), s1, 0)
                    },
                    None => (Err(HintingExecutionError::BadBranchTarget), s1, 0),
                }
            }
        } else {
            if 0 <= v < s.functions.len() && s.functions[v as int] is Some {
                let f = s.functions[v as int]->Some_0;
                let cs = s.call_stack;
                (
                    Ok(()),
                    HinterState {
                        stack: rest,
                        call_stack: cs.update(cs.len() - 1, Frame { pc: next as usize, ..frame }).push(f),
                        ..s
                    },
                    f.pc as int,
                )
            } else {
                (Err(HintingExecutionError::CallToUndefinedFunction), with_stack(s, rest), 0)
            }
        }
    }
}

/// True for the opcodes of `IF`, `ELSE`, `FDEF` and `CALL`.
pub open spec fn is_control_op(op: u8) -> bool {
    op == 0x58 || op == 0x1b || op == 0x2c || op == 0x2b
}

/// Where the values of a push instruction at `pc` start: after the count byte of the long
/// forms, or just after the opcode.
pub open spec fn push_start(op: u8, pc: int) -> int {
    if op == 0x40 || op == 0x41 {
        pc + 2
    } else {
        pc + 1
    }
}

/// The values that pushed bytes give.
pub open spec fn byte_values(d: Seq<u8>) -> Seq<i32> {
    d.map_values(|b: u8| b as i32)
}

/// The values that pushed big-endian words give.
pub open spec fn word_values(d: Seq<u8>) -> Seq<i32> {
    Seq::new(d.len() / 2, |k: int| be_i16(d, 2 * k) as i32)
}

/// Executes the instruction with opcode `op` at `frame` (the top frame, running `code`), the
/// next instruction starting at `next`: the outcome, the new state and the new program
/// counter.
pub open spec fn op_spec(s: HinterState, frame: Frame, code: Seq<u8>, op: u8, next: int) -> (
    Result<(), HintingExecutionError>,
    HinterState,
    int,
) {
    if is_push_bytes_op(op) {
        (Ok(()), with_stack(s, s.stack + byte_values(code.subrange(push_start(op, frame.pc as int), next))), next)
    } else if is_push_words_op(op) {
        (Ok(()), with_stack(s, s.stack + word_values(code.subrange(push_start(op, frame.pc as int), next))), next)
    } else if is_control_op(op) {
        control_spec(s, frame, op, next)
    } else if is_binary_op(op) || is_unary_op(op) {
        (arith_spec(s, op).0, arith_spec(s, op).1, next)
    } else {
        (state_spec(s, op).0, state_spec(s, op).1, next)
    }
}

/// One step of the machine: `Ok(true)` when no frame is left; otherwise a frame that has
/// reached its end is popped, or the instruction at its program counter is decoded and
/// executed, and the (new) top frame's counter moves to where execution goes on. A decoding
/// error leaves the state as it was.
pub open spec fn step_spec(s: HinterState) -> (Result<bool, HintingExecutionError>, HinterState) {
    if s.call_stack.len() == 0 {
        (Ok(true), s)
    } else {
        let frame = s.call_stack.last();
        if frame.pc == frame.end {
            (Ok(false), HinterState { call_stack: s.call_stack.drop_last(), ..s })
        } else {
            let code = s.scripts[frame.script as int].bytecode;
            if frame.pc >= code.len() {
                (Err(HintingExecutionError::ParseError(ParseError::Eof)), s)
            } else {
                match crate::hinting::interp::step(code, frame.pc as int) {
                    Err(e) => (Err(HintingExecutionError::ParseError(e)), s),
                    Ok((op, next)) => {
                        let (r, s2, pc2) = op_spec(s, frame, code, op, next);
                        match r {
                            Err(e) => (Err(e), s2),
                            Ok(()) => {
                                let cs = s2.call_stack;
                                (
                                    Ok(false),
                                    HinterState {
                                        call_stack: cs.update(
                                            cs.len() - 1,
                                            Frame { pc: pc2 as usize, ..cs.last() },
                                        ),
                                        ..s2
                                    },
                                )
                            },
                        }
                    },
                }
            }
        }
    }
}

/// A step at a two-operand instruction (`LT` to `NEQ`, `AND`, `OR`, `ADD`, `SUB`, `DIV`, `MUL`,
/// `MAX`, `MIN`) of the running frame: with fewer than two values on the stack it empties the
/// stack and fails; otherwise it replaces the two values on top of the stack by the one
/// `two_operand_result_ok` describes, moves the frame past the one-byte instruction, and leaves
/// the rest of the machine as it was.
pub proof fn lemma_two_operand_step(s: HinterState)
    requires
        s.call_stack.len() > 0,
        s.call_stack.last().pc < s.call_stack.last().end,
        s.call_stack.last().script < s.scripts.len(),
        s.call_stack.last().pc < s.scripts[s.call_stack.last().script as int].bytecode.len(),
    ensures
        ({
            let f = s.call_stack.last();
            let op = s.scripts[f.script as int].bytecode[f.pc as int];
            let n = s.stack.len();
            let (r, t) = step_spec(s);
            (0x50 <= op <= 0x55 || op == 0x5a || op == 0x5b || 0x60 <= op <= 0x63 || op == 0x8b || op
                == 0x8c) ==> {
                &&& n < 2 ==> r == Err::<bool, HintingExecutionError>(HintingExecutionError::StackUnderflow)
                    && t.stack.len() == 0
                &&& n >= 2 ==> {
                    &&& r == Ok::<bool, HintingExecutionError>(false)
                    &&& t.stack.len() == n - 1
                    &&& t.stack.take(n - 2) == s.stack.take(n - 2)
                    &&& two_operand_result_ok(op, s.stack[n - 2], s.stack[n - 1], t.stack[n - 2])
                    &&& t.call_stack == s.call_stack.update(
                        s.call_stack.len() - 1,
                        (Frame { pc: (f.pc + 1) as usize, end: f.end, script: f.script }),
                    )
                    &&& t == (HinterState { stack: t.stack, call_stack: t.call_stack, ..s })
                }
            }
        }),
{
    let f = s.call_stack.last();
    let code = s.scripts[f.script as int].bytecode;
    let op = code[f.pc as int];
    if 0x50 <= op <= 0x55 || op == 0x5a || op == 0x5b || 0x60 <= op <= 0x63 || op == 0x8b || op == 0x8c {
        assert(crate::hinting::interp::step(code, f.pc as int) == Ok::<(u8, int), ParseError>((op, f.pc + 1)));
        let n = s.stack.len();
        if n >= 2 {
            lemma_binary_value_ok(op, s.stack[n - 2], s.stack[n - 1]);
            let t = step_spec(s).1;
            assert(t.stack =~= s.stack.take(n - 2).push(binary_value(op, s.stack[n - 2], s.stack[n - 1])));
            assert(t.stack.take(n - 2) =~= s.stack.take(n - 2));
        }
    }
}

/// A step at a one-operand instruction (`NOT`, `ABS`, `NEG`, `GETINFO`) of the running frame:
/// with an empty stack it fails; otherwise it replaces the value on top of the stack by the one
/// `one_operand_result_ok` describes, moves the frame past the one-byte instruction, and leaves
/// the rest of the machine as it was.
pub proof fn lemma_one_operand_step(s: HinterState)
    requires
        s.call_stack.len() > 0,
        s.call_stack.last().pc < s.call_stack.last().end,
        s.call_stack.last().script < s.scripts.len(),
        s.call_stack.last().pc < s.scripts[s.call_stack.last().script as int].bytecode.len(),
    ensures
        ({
            let f = s.call_stack.last();
            let op = s.scripts[f.script as int].bytecode[f.pc as int];
            let n = s.stack.len();
            let (r, t) = step_spec(s);
            (op == 0x5c || op == 0x64 || op == 0x65 || op == 0x88) ==> {
                &&& n < 1 ==> r == Err::<bool, HintingExecutionError>(HintingExecutionError::StackUnderflow)
                &&& n >= 1 ==> {
                    &&& r == Ok::<bool, HintingExecutionError>(false)
                    &&& t.stack.len() == n
                    &&& t.stack.take(n - 1) == s.stack.take(n - 1)
                    &&& one_operand_result_ok(op, s.stack[n - 1], t.stack[n - 1])
                    &&& t.call_stack == s.call_stack.update(
                        s.call_stack.len() - 1,
                        (Frame { pc: (f.pc + 1) as usize, end: f.end, script: f.script }),
                    )
                    &&& t == (HinterState { stack: t.stack, call_stack: t.call_stack, ..s })
                }
            }
        }),
{
    let f = s.call_stack.last();
    let code = s.scripts[f.script as int].bytecode;
    let op = code[f.pc as int];
    if op == 0x5c || op == 0x64 || op == 0x65 || op == 0x88 {
        assert(crate::hinting::interp::step(code, f.pc as int) == Ok::<(u8, int), ParseError>((op, f.pc + 1)));
        let n = s.stack.len();
        if n >= 1 {
            lemma_unary_value_ok(op, s.stack[n - 1]);
            let t = step_spec(s).1;
            assert(t.stack =~= s.stack.drop_last().push(unary_value(op, s.stack[n - 1])));
            assert(t.stack.take(n - 1) =~= s.stack.take(n - 1));
        }
    }
}

/// A step at a stack or memory instruction of the running frame, with enough values on the
/// stack: `DUP` pushes a copy of the top value, `POP` drops it, `CLEAR` empties the stack, `SWAP`
/// exchanges the two top values, `MPPEM` pushes the pixels per em; `RS` replaces an address by the
/// value stored there (0 for an address never written); `WS` pops a value and an address under
/// it and stores the value there, the storage area growing with zeros to reach it and keeping
/// every other value; `RCVT` replaces an index by that entry of the control value table, and
/// fails for an index outside it. On success the frame moves past the one-byte instruction and
/// the rest of the machine is left as it was.
#[verifier::rlimit(40)]
pub proof fn lemma_stack_and_memory_step(s: HinterState)
    requires
        s.call_stack.len() > 0,
        s.call_stack.last().pc < s.call_stack.last().end,
        s.call_stack.last().script < s.scripts.len(),
        s.call_stack.last().pc < s.scripts[s.call_stack.last().script as int].bytecode.len(),
    ensures
        ({
            let f = s.call_stack.last();
            let op = s.scripts[f.script as int].bytecode[f.pc as int];
            let st = s.stack;
            let n = st.len();
            let (r, t) = step_spec(s);
            let moved = t.call_stack == s.call_stack.update(
                s.call_stack.len() - 1,
                (Frame { pc: (f.pc + 1) as usize, end: f.end, script: f.script }),
            );
            let ok = r == Ok::<bool, HintingExecutionError>(false) && moved;
            let only_stack = t == (HinterState { stack: t.stack, call_stack: t.call_stack, ..s });
            &&& (op == 0x20 && n >= 1) ==> ok && only_stack && t.stack == st.push(st[n - 1])
            &&& (op == 0x21 && n >= 1) ==> ok && only_stack && t.stack == st.take(n - 1)
            &&& op == 0x22 ==> ok && only_stack && t.stack.len() == 0
            &&& (op == 0x23 && n >= 2) ==> ok && only_stack && t.stack.len() == n && t.stack.take(n
                - 2) == st.take(n - 2) && t.stack[n - 2] == st[n - 1] && t.stack[n - 1] == st[n - 2]
            &&& op == 0x4b ==> ok && only_stack && t.stack == st.push(s.ppem)
            &&& (op == 0x43 && n >= 1) ==> ok && only_stack && t.stack == st.take(n - 1).push(
                if 0 <= st[n - 1] < s.storage_area.len() {
                    s.storage_area[st[n - 1] as int]
                } else {
                    0i32
                },
            )
            &&& (op == 0x42 && n >= 2 && st[n - 2] >= 0) ==> {
                let a = st[n - 2] as int;
                &&& ok
                &&& t == (HinterState {
                    stack: t.stack,
                    call_stack: t.call_stack,
                    storage_area: t.storage_area,
                    ..s
                })
                &&& t.stack == st.take(n - 2)
                &&& t.storage_area.len() == if a < s.storage_area.len() {
                    s.storage_area.len() as int
                } else {
                    a + 1
                }
                &&& t.storage_area[a] == st[n - 1]
                &&& forall|i: int|
                    0 <= i < t.storage_area.len() && i != a ==> #[trigger] t.storage_area[i] == if i
                        < s.storage_area.len() {
                        s.storage_area[i]
                    } else {
                        0i32
                    }
            }
            &&& (op == 0x45 && n >= 1 && 0 <= st[n - 1] < s.control_value_table.len()) ==> ok
                && only_stack && t.stack == st.take(n - 1).push(
                s.control_value_table[st[n - 1] as int],
            )
            &&& (op == 0x45 && n >= 1 && !(0 <= st[n - 1] < s.control_value_table.len())) ==> r
                == Err::<bool, HintingExecutionError>(HintingExecutionError::CvtReadOutOfBounds)
        }),
{
    let f = s.call_stack.last();
    let code = s.scripts[f.script as int].bytecode;
    let op = code[f.pc as int];
    let st = s.stack;
    let n = st.len();
    if op == 0x20 || op == 0x21 || op == 0x22 || op == 0x23 || op == 0x4b || op == 0x43 || op == 0x42
        || op == 0x45 {
        assert(crate::hinting::interp::step(code, f.pc as int) == Ok::<(u8, int), ParseError>((op, f.pc + 1)));
        let t = step_spec(s).1;
        if op == 0x21 && n >= 1 {
            assert(st.drop_last() =~= st.take(n - 1));
        } else if (op == 0x43 || op == 0x45) && n >= 1 {
            assert(st.drop_last() =~= st.take(n - 1));
        } else if op == 0x23 && n >= 2 {
            assert(t.stack =~= st.take(n - 2).push(st[n - 1]).push(st[n - 2]));
            assert(t.stack.take(n - 2) =~= st.take(n - 2));
        }
    }
}

/// In branches sorted by location, the branch entry at `pc` is the one `target_for` finds.
proof fn lemma_target_for_entry(targets: Seq<BranchTarget>, pc: usize, k: int)
    requires
        targets_sorted(targets),
        0 <= k < targets.len(),
        targets[k].branch_location == pc,
    ensures
        target_for(targets, pc) == Some(targets[k].target_location),
{
    let c = choose|i: int| 0 <= i < targets.len() && #[trigger] targets[i].branch_location == pc;
    assert(c == k) by {
        if c < k {
            assert(targets[c].branch_location < targets[k].branch_location);
        } else if c > k {
            assert(targets[k].branch_location < targets[c].branch_location);
        }
    }
}

/// A step at a branch or function instruction of the running frame, whose script lists the
/// branch at the frame's counter as ending at `end` (`k`th entry): `IF` pops its condition and
/// goes on after it when the condition is nonzero, and jumps just past `end` otherwise; `ELSE`
/// always jumps just past `end`; `FDEF` pops a function number, records that function as the
/// code from just after `FDEF` up to `end` in this script (the list of functions growing with
/// empty entries to reach it, others kept), and jumps just past `end`; `CALL` pops a function
/// number and, when that function is defined, saves the position after `CALL` in the running
/// frame and starts the function's frame on top of it, and fails otherwise. Nothing else changes.
#[verifier::rlimit(40)]
pub proof fn lemma_branch_and_call_step(s: HinterState, k: int)
    requires
        state_wf(s),
        s.call_stack.len() > 0,
        s.call_stack.last().pc < s.call_stack.last().end,
        s.call_stack.last().pc < s.scripts[s.call_stack.last().script as int].bytecode.len(),
    ensures
        ({
            let f = s.call_stack.last();
            let script = s.scripts[f.script as int];
            let op = script.bytecode[f.pc as int];
            let st = s.stack;
            let n = st.len();
            let (r, t) = step_spec(s);
            let last = s.call_stack.len() - 1;
            let at = |pc: int|
                s.call_stack.update(last, (Frame { pc: pc as usize, end: f.end, script: f.script }));
            let has_end = 0 <= k < script.branch_targets.len() && script.branch_targets[k].branch_location
                == f.pc && script.branch_targets[k].target_location < usize::MAX;
            let end = script.branch_targets[k].target_location as int;
            &&& (op == 0x58 && n >= 1 && st[n - 1] != 0) ==> r == Ok::<bool, HintingExecutionError>(false)
                && t == (HinterState { stack: st.take(n - 1), call_stack: at(f.pc + 1), ..s })
            &&& (op == 0x58 && n >= 1 && st[n - 1] == 0 && has_end) ==> r == Ok::<bool, HintingExecutionError>(false)
                && t == (HinterState { stack: st.take(n - 1), call_stack: at(end + 1), ..s })
            &&& (op == 0x1b && has_end) ==> r == Ok::<bool, HintingExecutionError>(false) && t == (
            HinterState { call_stack: at(end + 1), ..s })
            &&& (op == 0x2c && n >= 1 && st[n - 1] >= 0 && has_end) ==> {
                let v = st[n - 1] as int;
                &&& r == Ok::<bool, HintingExecutionError>(false)
                &&& t == (HinterState {
                    stack: st.take(n - 1),
                    call_stack: at(end + 1),
                    functions: t.functions,
                    ..s
                })
                &&& t.functions.len() == if v < s.functions.len() {
                    s.functions.len() as int
                } else {
                    v + 1
                }
                &&& t.functions[v] == Some(
                    Frame { pc: (f.pc + 1) as usize, end: end as usize, script: f.script },
                )
                &&& forall|i: int|
                    0 <= i < t.functions.len() && i != v ==> #[trigger] t.functions[i] == if i
                        < s.functions.len() {
                        s.functions[i]
                    } else {
                        None::<Frame>
                    }
            }
            &&& (op == 0x2b && n >= 1 && 0 <= st[n - 1] < s.functions.len() && s.functions[st[n
                - 1] as int] is Some) ==> r == Ok::<bool, HintingExecutionError>(false) && t == (
            HinterState {
                stack: st.take(n - 1),
                call_stack: at(f.pc + 1).push(s.functions[st[n - 1] as int]->Some_0),
                ..s
            })
            &&& (op == 0x2b && n >= 1 && !(0 <= st[n - 1] < s.functions.len() && s.functions[st[n
                - 1] as int] is Some)) ==> r == Err::<bool, HintingExecutionError>(
                HintingExecutionError::CallToUndefinedFunction,
            )
        }),
{
    let f = s.call_stack.last();
    let script = s.scripts[f.script as int];
    let code = script.bytecode;
    let op = code[f.pc as int];
    let st = s.stack;
    let n = st.len();
    let last = s.call_stack.len() - 1;
    assert(s.call_stack[last] == f);
    if op == 0x58 || op == 0x1b || op == 0x2c || op == 0x2b {
        assert(crate::hinting::interp::step(code, f.pc as int) == Ok::<(u8, int), ParseError>((op, f.pc + 1)));
        assert(targets_sorted(script.branch_targets));
        if 0 <= k < script.branch_targets.len() && script.branch_targets[k].branch_location == f.pc {
            lemma_target_for_entry(script.branch_targets, f.pc, k);
        }
        if n >= 1 {
            assert(st.drop_last() =~= st.take(n - 1));
        }
        let t = step_spec(s).1;
        if op == 0x2b && n >= 1 && 0 <= st[n - 1] < s.functions.len() && s.functions[st[n - 1] as int] is Some {
            let g = s.functions[st[n - 1] as int]->Some_0;
            let cs = s.call_stack.update(last, Frame { pc: (f.pc + 1) as usize, ..f }).push(g);
            assert(cs.update(cs.len() - 1, Frame { pc: g.pc, ..cs.last() }) =~= cs);
        }
    }
}

/// A step at a graphics-state instruction of the running frame: `SVTCA` sets both the projection
/// and the freedom vector, `SPVTCA` the projection vector and `SFVTCA` the freedom vector, to the
/// unit vector (2.14, 0x4000 long) along the y axis for the even opcode and the x axis for the odd
/// one; `SRP0`..`SRP2` pop a point number into reference point 0..2 and `SZP0`..`SZP2` pop a zone
/// number into zone pointer 0..2, `SZPS` into all three; `RTHG`, `RTG`, `RTDG`, `RUTG` and `ROFF`
/// set the rounding. The frame moves past the one-byte instruction and nothing else changes.
#[verifier::rlimit(40)]
pub proof fn lemma_graphics_state_step(s: HinterState)
    requires
        s.call_stack.len() > 0,
        s.call_stack.last().pc < s.call_stack.last().end,
        s.call_stack.last().script < s.scripts.len(),
        s.call_stack.last().pc < s.scripts[s.call_stack.last().script as int].bytecode.len(),
    ensures
        ({
            let f = s.call_stack.last();
            let op = s.scripts[f.script as int].bytecode[f.pc as int];
            let st = s.stack;
            let n = st.len();
            let (r, t) = step_spec(s);
            let moved = s.call_stack.update(
                s.call_stack.len() - 1,
                (Frame { pc: (f.pc + 1) as usize, end: f.end, script: f.script }),
            );
            let x_axis = UnitVector { x: 0x4000, y: 0 };
            let y_axis = UnitVector { x: 0, y: 0x4000 };
            let axis = if op % 2 == 1 { x_axis } else { y_axis };
            let p = if n >= 1 { st[n - 1] as u32 } else { 0u32 };
            let (rp, zp) = (s.reference_points, s.zone_points);
            let popped = HinterState { stack: st.take(n - 1), call_stack: moved, ..s };
            &&& op <= 0x01 ==> r == Ok::<bool, HintingExecutionError>(false) && t == (HinterState {
                call_stack: moved,
                projection_vector: axis,
                freedom_vector: axis,
                ..s
            })
            &&& (op == 0x02 || op == 0x03) ==> r == Ok::<bool, HintingExecutionError>(false) && t
                == (HinterState { call_stack: moved, projection_vector: axis, ..s })
            &&& (op == 0x04 || op == 0x05) ==> r == Ok::<bool, HintingExecutionError>(false) && t
                == (HinterState { call_stack: moved, freedom_vector: axis, ..s })
            &&& (0x10 <= op <= 0x16 && n >= 1) ==> r == Ok::<bool, HintingExecutionError>(false)
            &&& (op == 0x10 && n >= 1) ==> t == (HinterState { reference_points: (p, rp.1, rp.2), ..popped })
            &&& (op == 0x11 && n >= 1) ==> t == (HinterState { reference_points: (rp.0, p, rp.2), ..popped })
            &&& (op == 0x12 && n >= 1) ==> t == (HinterState { reference_points: (rp.0, rp.1, p), ..popped })
            &&& (op == 0x13 && n >= 1) ==> t == (HinterState { zone_points: (p, zp.1, zp.2), ..popped })
            &&& (op == 0x14 && n >= 1) ==> t == (HinterState { zone_points: (zp.0, p, zp.2), ..popped })
            &&& (op == 0x15 && n >= 1) ==> t == (HinterState { zone_points: (zp.0, zp.1, p), ..popped })
            &&& (op == 0x16 && n >= 1) ==> t == (HinterState { zone_points: (p, p, p), ..popped })
            &&& (op == 0x19 || op == 0x18 || op == 0x3d || op == 0x7c || op == 0x7a) ==> r == Ok::<
                bool,
                HintingExecutionError,
            >(false) && t == (HinterState {
                call_stack: moved,
                round_state: if op == 0x19 {
                    RoundState::RoundToHalfGrid
                } else if op == 0x18 {
                    RoundState::RoundToGrid
                } else if op == 0x3d {
                    RoundState::RoundToDoubleGrid
                } else if op == 0x7c {
                    RoundState::RoundUpToGrid
                } else {
                    RoundState::RoundOff
                },
                ..s
            })
        }),
{
    let f = s.call_stack.last();
    let code = s.scripts[f.script as int].bytecode;
    let op = code[f.pc as int];
    let n = s.stack.len();
    if op <= 0x05 || 0x10 <= op <= 0x16 || op == 0x19 || op == 0x18 || op == 0x3d || op == 0x7c || op
        == 0x7a {
        assert(crate::hinting::interp::step(code, f.pc as int) == Ok::<(u8, int), ParseError>((op, f.pc + 1)));
        if n >= 1 {
            assert(s.stack.drop_last() =~= s.stack.take(n - 1));
        }
    }
}

/// A step at a push instruction of the running frame: `PUSHB[n]` (opcodes 0xb0 to 0xb7, `n`
/// one more than the low three bits) and `NPUSHB` (0x40, `n` in the next byte) push the `n`
/// bytes that follow as values from 0 to 255; `PUSHW[n]` (0xb8 to 0xbf) and `NPUSHW` (0x41) push
/// the `n` big-endian 16-bit words that follow, sign-extended. The frame moves past the data and
/// nothing else changes; data running past the end of the program is an error.
#[verifier::rlimit(40)]
pub proof fn lemma_push_step(s: HinterState)
    requires
        s.call_stack.len() > 0,
        s.call_stack.last().pc < s.call_stack.last().end,
        s.call_stack.last().script < s.scripts.len(),
        s.call_stack.last().pc < s.scripts[s.call_stack.last().script as int].bytecode.len(),
    ensures
        ({
            let f = s.call_stack.last();
            let code = s.scripts[f.script as int].bytecode;
            let pc = f.pc as int;
            let op = code[pc];
            let st = s.stack;
            let n = st.len();
            let (r, t) = step_spec(s);
            let bytes = 0x40 == op || (0xb0 <= op <= 0xb7);
            let words = 0x41 == op || (0xb8 <= op <= 0xbf);
            let long = op == 0x40 || op == 0x41;
            let start = if long { pc + 2 } else { pc + 1 };
            let count: int = if long {
                if pc + 1 < code.len() { code[pc + 1] as int } else { 0 }
            } else {
                (op % 8) as int + 1
            };
            let width: int = if bytes { 1 } else { 2 };
            let end = start + count * width;
            (bytes || words) ==> {
                &&& (end <= code.len() && (!long || pc + 1 < code.len())) ==> {
                    &&& r == Ok::<bool, HintingExecutionError>(false)
                    &&& t == (HinterState {
                        stack: t.stack,
                        call_stack: s.call_stack.update(
                            s.call_stack.len() - 1,
                            (Frame { pc: end as usize, end: f.end, script: f.script }),
                        ),
                        ..s
                    })
                    &&& t.stack.len() == n + count
                    &&& t.stack.take(n as int) == st
                    &&& forall|k: int|
                        0 <= k < count ==> #[trigger] t.stack[n + k] as int == if bytes {
                            code[start + k] as int
                        } else {
                            let u = code[start + 2 * k] as int * 0x100 + code[start + 2 * k + 1] as int;
                            if u >= 0x8000 {
                                u - 0x1_0000
                            } else {
                                u
                            }
                        }
                }
                &&& !(end <= code.len() && (!long || pc + 1 < code.len())) ==> r is Err
            }
        }),
{
    let f = s.call_stack.last();
    let code = s.scripts[f.script as int].bytecode;
    let pc = f.pc as int;
    let op = code[pc];
    let n = s.stack.len();
    let bytes = 0x40 == op || (0xb0 <= op <= 0xb7);
    let words = 0x41 == op || (0xb8 <= op <= 0xbf);
    if bytes || words {
        let long = op == 0x40 || op == 0x41;
        let start = if long { pc + 2 } else { pc + 1 };
        let t = step_spec(s).1;
        if let Ok((op2, next)) = crate::hinting::interp::step(code, pc) {
            let d = code.subrange(start, next);
            assert(push_start(op, pc) == start);
            if bytes {
                assert(t.stack =~= s.stack + byte_values(d));
            } else {
                assert(t.stack =~= s.stack + word_values(d));
                assert forall|k: int| 0 <= k < d.len() / 2 implies #[trigger] word_values(d)[k] as int == {
                    let u = d[2 * k] as int * 0x100 + d[2 * k + 1] as int;
                    if u >= 0x8000 { u - 0x1_0000 } else { u }
                } by {
                    assert(0 <= 2 * k && 2 * k + 1 < d.len());
                }
            }
            assert(t.stack.take(n as int) =~= s.stack);
        }
    }
}

/// At most `steps` steps from `s`: the steps stop early once the call stack is empty
/// (`Ok(true)`) or a step fails; `Ok(false)` means that frames are still left to run.
pub open spec fn run_spec(s: HinterState, steps: nat) -> (Result<bool, HintingExecutionError>, HinterState)
    decreases steps,
{
    if steps == 0 {
        (Ok(false), s)
    } else {
        let (r, next) = step_spec(s);
        match r {
            Ok(false) => run_spec(next, (steps - 1) as nat),
            _ => (r, next),
        }
    }
}

/// Running `a` steps and then `b` more from where they left off is running `a + b` steps.
pub proof fn lemma_run_in_two_parts(s: HinterState, a: nat, b: nat)
    ensures
        run_spec(s, a + b) == (match run_spec(s, a) {
            (Ok(false), t) => run_spec(t, b),
            other => other,
        }),
    decreases a,
{
    if a > 0 {
        let (r, next) = step_spec(s);
        if r == Ok::<bool, HintingExecutionError>(false) {
            lemma_run_in_two_parts(next, (a - 1) as nat, b);
            assert((a + b - 1) as nat == ((a - 1) as nat + b) as nat);
        }
    }
}

/// The machine's invariant: every frame, on the call stack or defined as a function, runs one
/// of the scripts, and every script's branches are in order of location.
pub open spec fn state_wf(s: HinterState) -> bool {
    &&& forall|i: int| 0 <= i < s.call_stack.len() ==> (#[trigger] s.call_stack[i]).script < s.scripts.len()
    &&& forall|i: int|
        0 <= i < s.functions.len() ==> (#[trigger] s.functions[i] matches Some(f) ==> f.script
            < s.scripts.len())
    &&& forall|i: int| 0 <= i < s.scripts.len() ==> targets_sorted((#[trigger] s.scripts[i]).branch_targets)
}

/// The machine's view of a script.
pub open spec fn script_view(s: Script) -> ScriptView {
    ScriptView { bytecode: s.bytecode_spec(), branch_targets: s.branch_targets_spec() }
}

/// A TrueType hinting virtual machine.
pub struct Hinter<'a> {
    /// The value stack.
    pub stack: Vec<i32>,
    /// The storage area: the machine's uninitialized memory.
    pub storage_area: Vec<i32>,
    /// The control value table: the machine's initialized memory, in 26.6 fixed point.
    pub control_value_table: Vec<i32>,
    /// The functions defined so far, by number.
    pub functions: Vec<Option<Frame>>,
    /// The frames being run; the last one runs now.
    pub call_stack: Vec<Frame>,
    /// The programs.
    pub scripts: Vec<Script<'a>>,
    /// The size of an em in pixels.
    pub ppem: i32,
    /// The projection vector.
    pub projection_vector: UnitVector,
    /// The freedom vector.
    pub freedom_vector: UnitVector,
    /// The reference point indices.
    pub reference_points: (u32, u32, u32),
    /// The zone numbers.
    pub zone_points: (u32, u32, u32),
    /// The round state.
    pub round_state: RoundState,
}

impl<'a> View for Hinter<'a> {
    type V = HinterState;

    open spec fn view(&self) -> HinterState {
        HinterState {
            stack: self.stack@,
            storage_area: self.storage_area@,
            control_value_table: self.control_value_table@,
            functions: self.functions@,
            call_stack: self.call_stack@,
            scripts: self.scripts@.map_values(|s: Script<'a>| script_view(s)),
            ppem: self.ppem,
            projection_vector: self.projection_vector,
            freedom_vector: self.freedom_vector,
            reference_points: self.reference_points,
            zone_points: self.zone_points,
            round_state: self.round_state,
        }
    }
}

/// Finds where the branch at `pc` ends by binary search over branches sorted by location.
fn find_target(targets: &Vec<BranchTarget>, pc: usize) -> (r: Option<usize>)
    requires
        targets_sorted(targets@),
    ensures
        r == target_for(targets@, pc),
{
    let mut lo: usize = 0;
    let mut hi: usize = targets.len();
    while lo < hi
        invariant
            lo <= hi <= targets@.len(),
            targets_sorted(targets@),
            forall|i: int| 0 <= i < lo ==> (#[trigger] targets@[i]).branch_location < pc,
            forall|i: int| hi <= i < targets@.len() ==> (#[trigger] targets@[i]).branch_location > pc,
        decreases hi - lo,
    {
        let mid = lo + (hi - lo) / 2;
        let t = targets[mid];
        if t.branch_location < pc {
            assert forall|i: int| 0 <= i < mid + 1 implies (#[trigger] targets@[i]).branch_location < pc by {
                if i < mid {
                    assert(targets@[i].branch_location < targets@[mid as int].branch_location);
                }
            }
            lo = mid + 1;
        } else if t.branch_location > pc {
            assert forall|i: int| mid <= i < targets@.len() implies (#[trigger] targets@[i]).branch_location > pc by {
                if i > mid {
                    assert(targets@[mid as int].branch_location < targets@[i].branch_location);
                }
            }
            hi = mid;
        } else {
            let ghost c = choose|i: int| 0 <= i < targets@.len() && #[trigger] targets@[i].branch_location == pc;
            assert(targets@[mid as int].branch_location == pc);
            assert(c == mid) by {
                if c < mid {
                    assert(targets@[c].branch_location < targets@[mid as int].branch_location);
                } else if c > mid {
                    assert(targets@[mid as int].branch_location < targets@[c].branch_location);
                }
            }
            return Some(t.target_location);
        }
    }
    assert forall|i: int| 0 <= i < targets@.len() implies #[trigger] targets@[i].branch_location != pc by {
        if i < lo {
        } else {
            assert(i >= hi);
        }
    }
    None
}

impl<'a> Hinter<'a> {
    /// The machine's invariant (see `state_wf`).
    pub open spec fn wf(&self) -> bool {
        state_wf(self@)
    }

    /// Whether the machine's invariant holds (see `state_wf`).
    pub fn is_well_formed(&self) -> (r: bool)
        ensures
            r == self.wf(),
    {
        let n = self.scripts.len();
        let mut k: usize = 0;
        while k < self.call_stack.len()
            invariant
                n == self.scripts@.len(),
                forall|i: int| 0 <= i < k ==> (#[trigger] self.call_stack@[i]).script < n,
            decreases self.call_stack@.len() - k,
        {
            if self.call_stack[k].script >= n {
                assert(self@.call_stack[k as int].script >= self@.scripts.len());
                return false;
            }
            k = k + 1;
        }
        let mut k: usize = 0;
        while k < self.functions.len()
            invariant
                n == self.scripts@.len(),
                forall|i: int| 0 <= i < k ==> (#[trigger] self.functions@[i] matches Some(f) ==> f.script < n),
            decreases self.functions@.len() - k,
        {
            match self.functions[k] {
                Some(f) => {
                    if f.script >= n {
                        return false;
                    }
                },
                None => {},
            }
            k = k + 1;
        }
        let mut k: usize = 0;
        while k < n
            invariant
                n == self.scripts@.len(),
                forall|i: int| 0 <= i < k ==> targets_sorted(#[trigger] self.scripts@[i].branch_targets_spec()),
            decreases n - k,
        {
            let targets = self.scripts[k].branch_targets();
            let mut j: usize = 1;
            if targets.len() > 1 {
                while j < targets.len()
                    invariant
                        1 <= j <= targets@.len(),
                        k < n,
                        n == self.scripts@.len(),
                        targets@ == self.scripts@[k as int].branch_targets_spec(),
                        targets_sorted(targets@.take(j as int)),
                    decreases targets@.len() - j,
                {
                    if targets[j - 1].branch_location >= targets[j].branch_location {
                        assert(!targets_sorted(targets@)) by {
                            assert(targets@[j - 1].branch_location >= targets@[j as int].branch_location);
                        }
                        assert(self@.scripts[k as int] == script_view(self.scripts@[k as int]));
                        assert(!targets_sorted(self@.scripts[k as int].branch_targets));
                        return false;
                    }
                    assert forall|a: int, b: int| 0 <= a < b < j + 1 implies #[trigger] targets@.take(j + 1)[a].branch_location
                        < #[trigger] targets@.take(j + 1)[b].branch_location by {
                        if b < j {
                            assert(targets@.take(j as int)[a] == targets@[a]);
                            assert(targets@.take(j as int)[b] == targets@[b]);
                        } else if a < j - 1 {
                            assert(targets@.take(j as int)[a] == targets@[a]);
                            assert(targets@.take(j as int)[j - 1] == targets@[j - 1]);
                        }
                    }
                    j = j + 1;
                }
                assert(targets@.take(targets@.len() as int) =~= targets@);
            }
            k = k + 1;
        }
        true
    }

    /// Creates a machine for the given scripts and control value table, at `ppem` pixels per
    /// em, with an empty stack, storage area and call stack, no functions, both vectors zero,
    /// reference points and zones 0, and rounding to the half grid.
    pub fn new(scripts: Vec<Script<'a>>, control_value_table: Vec<i32>, ppem: i32) -> (r: Hinter<'a>)
        requires
            forall|i: int| 0 <= i < scripts@.len() ==> targets_sorted(#[trigger] scripts@[i].branch_targets_spec()),
        ensures
            r.wf(),
            r.stack@ == Seq::<i32>::empty(),
            r.storage_area@ == Seq::<i32>::empty(),
            r.control_value_table@ == control_value_table@,
            r.functions@ == Seq::<Option<Frame>>::empty(),
            r.call_stack@ == Seq::<Frame>::empty(),
            r.scripts@ == scripts@,
            r.ppem == ppem,
            r.projection_vector == (UnitVector { x: 0, y: 0 }),
            r.freedom_vector == (UnitVector { x: 0, y: 0 }),
            r.reference_points == (0u32, 0u32, 0u32),
            r.zone_points == (0u32, 0u32, 0u32),
            r.round_state == RoundState::RoundToHalfGrid,
    {
        let r = Hinter {
            stack: Vec::new(),
            storage_area: Vec::new(),
            control_value_table: control_value_table,
            functions: Vec::new(),
            call_stack: Vec::new(),
            scripts: scripts,
            ppem: ppem,
            projection_vector: UnitVector { x: 0, y: 0 },
            freedom_vector: UnitVector { x: 0, y: 0 },
            reference_points: (0, 0, 0),
            zone_points: (0, 0, 0),
            round_state: RoundState::RoundToHalfGrid,
        };
        assert forall|i: int| 0 <= i < r@.scripts.len() implies targets_sorted(
            (#[trigger] r@.scripts[i]).branch_targets,
        ) by {
            assert(r@.scripts[i] == script_view(scripts@[i]));
        }
        r
    }

    /// Starts running script `script_index` from its beginning to its end, on top of the
    /// frames already running; there is no such script past the last one.
    pub fn call_script(&mut self, script_index: usize) -> (r: Result<(), HintingExecutionError>)
        requires
            old(self).wf(),
        ensures
            final(self).wf(),
            script_index < old(self)@.scripts.len() ==> r is Ok && final(self)@ == (HinterState {
                call_stack: old(self)@.call_stack.push(
                    Frame {
                        pc: 0,
                        end: old(self)@.scripts[script_index as int].bytecode.len() as usize,
                        script: script_index,
                    },
                ),
                ..old(self)@
            }),
            script_index >= old(self)@.scripts.len() ==> r == Err::<(), HintingExecutionError>(
                HintingExecutionError::CallToUndefinedFunction,
            ) && final(self)@ == old(self)@,
    {
        if script_index >= self.scripts.len() {
            return Err(HintingExecutionError::CallToUndefinedFunction);
        }
        let len = self.scripts[script_index].len();
        assert(self@.scripts[script_index as int] == script_view(self.scripts@[script_index as int]));
        self.call_stack.push(Frame::new(0, len, script_index));
        proof {
            assert(self@.scripts == old(self)@.scripts);
        }
        Ok(())
    }
}

/// Grows `area` with zeros until it holds index `a`.
fn grow_with_zeros(area: &mut Vec<i32>, a: usize)
    requires
        a < usize::MAX,
    ensures
        final(area)@ == if old(area)@.len() <= a {
            old(area)@ + Seq::new((a + 1 - old(area)@.len()) as nat, |i: int| 0i32)
        } else {
            old(area)@
        },
{
    let ghost area0 = area@;
    while area.len() <= a
        invariant
            a < usize::MAX,
            area0.len() <= area@.len(),
            area0.len() <= a + 1 ==> area@.len() <= a + 1,
            area0.len() > a ==> area@.len() == area0.len(),
            area@ =~= area0 + Seq::new((area@.len() - area0.len()) as nat, |i: int| 0i32),
        decreases a + 1 - area@.len(),
    {
        area.push(0);
        assert(area@ =~= area0 + Seq::new((area@.len() - area0.len()) as nat, |i: int| 0i32));
    }
    proof {
        if area0.len() > a {
            assert(area@ =~= area0);
        }
    }
}

/// Divides, rounding toward zero.
fn trunc_div_exec(a: i64, b: i64) -> (r: i64)
    requires
        b != 0,
        -0x4000_0000_0000_0000 <= a <= 0x4000_0000_0000_0000,
        -0x1_0000_0000 <= b <= 0x1_0000_0000,
    ensures
        r == trunc_div(a as int, b as int),
{
    let ma: u64 = if a < 0 { (0 - a) as u64 } else { a as u64 };
    let mb: u64 = if b < 0 { (0 - b) as u64 } else { b as u64 };
    let q: u64 = ma / mb;
    assert(q <= ma);
    if (a < 0) != (b < 0) {
        -(q as i64)
    } else {
        q as i64
    }
}

/// The value a two-operand instruction pushes (see `binary_value`).
fn binary_exec(op: u8, lhs: i32, rhs: i32) -> (r: i32)
    ensures
        r == binary_value(op, lhs, rhs),
{
    if op == 0x50 {
        if lhs < rhs { 1 } else { 0 }
    } else if op == 0x51 {
        if lhs <= rhs { 1 } else { 0 }
    } else if op == 0x52 {
        if lhs > rhs { 1 } else { 0 }
    } else if op == 0x53 {
        if lhs >= rhs { 1 } else { 0 }
    } else if op == 0x54 {
        if lhs == rhs { 1 } else { 0 }
    } else if op == 0x55 {
        if lhs != rhs { 1 } else { 0 }
    } else if op == 0x5a {
        if lhs != 0 && rhs != 0 { 1 } else { 0 }
    } else if op == 0x5b {
        if lhs != 0 || rhs != 0 { 1 } else { 0 }
    } else if op == 0x60 {
        lhs.wrapping_add(rhs)
    } else if op == 0x61 {
        lhs.wrapping_sub(rhs)
    } else if op == 0x62 {
        if rhs == 0 {
            // Obey Postel's law.
            0
        } else {
            let q = trunc_div_exec(lhs as i64 * 64, rhs as i64);
            q as i32
        }
    } else if op == 0x63 {
        assert(-0x4000_0000_0000_0000 <= lhs as int * rhs as int <= 0x4000_0000_0000_0000)
            by (nonlinear_arith);
        let q = trunc_div_exec(lhs as i64 * rhs as i64, 64);
        q as i32
    } else if op == 0x8b {
        if lhs >= rhs { lhs } else { rhs }
    } else {
        if lhs <= rhs { lhs } else { rhs }
    }
}

/// The value a one-operand instruction pushes (see `unary_value`).
fn unary_exec(op: u8, v: i32) -> (r: i32)
    ensures
        r == unary_value(op, v),
{
    if op == 0x5c {
        if v == 0 { 1 } else { 0 }
    } else if op == 0x64 {
        // Actually in fixed point, but it works out the same way.
        if v == i32::MIN {
            v
        } else if v < 0 {
            -v
        } else {
            v
        }
    } else if op == 0x65 {
        if v == i32::MIN {
            v
        } else {
            -v
        }
    } else {
        // Only the version and grayscale selectors are answered.
        (if v & VERSION != 0 { GETINFO_VERSION } else { 0 }) | (if v & FONT_SMOOTHING_GRAYSCALE
            != 0 {
            INFO_RESULT_FONT_SMOOTHING_GRAYSCALE
        } else {
            0
        })
    }
}

impl<'a> Hinter<'a> {
    /// Executes a one- or two-operand instruction (see `arith_spec`).
    fn exec_arith(&mut self, op: u8) -> (r: Result<(), HintingExecutionError>)
        requires
            is_binary_op(op) || is_unary_op(op),
        ensures
            r == arith_spec(old(self)@, op).0,
            final(self)@ == arith_spec(old(self)@, op).1,
            final(self).scripts@ == old(self).scripts@,
            final(self).functions@ == old(self).functions@,
            final(self).call_stack@ == old(self).call_stack@,
    {
        let ghost s = self@;
        let n = self.stack.len();
        if (0x50 <= op && op <= 0x55) || op == 0x5a || op == 0x5b || (0x60 <= op && op <= 0x63)
            || op == 0x8b || op == 0x8c {
            if n < 2 {
                self.stack.clear();
                assert(self@ =~= underflow(s).1);
                return Err(HintingExecutionError::StackUnderflow);
            }
            let rhs = self.stack[n - 1];
            let lhs = self.stack[n - 2];
            self.stack.truncate(n - 2);
            self.stack.push(binary_exec(op, lhs, rhs));
            assert(self@ =~= arith_spec(s, op).1);
        } else {
            if n < 1 {
                self.stack.clear();
                assert(self@ =~= underflow(s).1);
                return Err(HintingExecutionError::StackUnderflow);
            }
            let v = self.stack[n - 1];
            self.stack.truncate(n - 1);
            self.stack.push(unary_exec(op, v));
            assert(self@ =~= arith_spec(s, op).1);
        }
        Ok(())
    }
}

impl<'a> Hinter<'a> {
    /// Executes an instruction on memory, the graphics state or the stack (see `state_spec`).
    #[verifier::rlimit(50)]
    fn exec_state(&mut self, op: u8) -> (r: Result<(), HintingExecutionError>)
        ensures
            r == state_spec(old(self)@, op).0,
            final(self)@ == state_spec(old(self)@, op).1,
            final(self).scripts@ == old(self).scripts@,
            final(self).functions@ == old(self).functions@,
            final(self).call_stack@ == old(self).call_stack@,
    {
        let ghost s = self@;
        let n = self.stack.len();
        let needed: usize = if op == 0x42 || op == 0x23 {
            2
        } else if op == 0x43 || op == 0x45 || (0x10 <= op && op <= 0x16) || op == 0x76 || op == 0x85
            || op == 0x21 || op == 0x20 || op == 0x26 {
            1
        } else {
            0
        };
        if n < needed {
            self.stack.clear();
            assert(self@ =~= underflow(s).1);
            return Err(HintingExecutionError::StackUnderflow);
        }
        if op == 0x43 {
            // Read Store. A missing value reads as zero.
            let addr = self.stack[n - 1];
            self.stack.truncate(n - 1);
            let v = if addr >= 0 && (addr as usize) < self.storage_area.len() {
                self.storage_area[addr as usize]
            } else {
                0
            };
            self.stack.push(v);
        } else if op == 0x42 {
            // Write Store, growing the storage area as needed.
            let value = self.stack[n - 1];
            let addr = self.stack[n - 2];
            self.stack.truncate(n - 2);
            if addr < 0 {
                assert(self@ =~= state_spec(s, op).1);
                return Err(HintingExecutionError::NegativeIndex);
            }
            let a = addr as usize;
            grow_with_zeros(&mut self.storage_area, a);
            self.storage_area.set(a, value);
            assert(self@ =~= state_spec(s, op).1);
        } else if op == 0x45 {
            // Read Control Value Table.
            let addr = self.stack[n - 1];
            self.stack.truncate(n - 1);
            if addr >= 0 && (addr as usize) < self.control_value_table.len() {
                let v = self.control_value_table[addr as usize];
                self.stack.push(v);
            } else {
                assert(self@ =~= state_spec(s, op).1);
                return Err(HintingExecutionError::CvtReadOutOfBounds);
            }
        } else if op <= 0x05 {
            let v = if op % 2 == 1 {
                UnitVector { x: 0x4000, y: 0 }
            } else {
                UnitVector { x: 0, y: 0x4000 }
            };
            if op <= 0x03 {
                self.projection_vector = v;
            }
            if op <= 0x01 || op >= 0x04 {
                self.freedom_vector = v;
            }
        } else if 0x10 <= op && op <= 0x16 {
            let v = self.stack[n - 1] as u32;
            self.stack.truncate(n - 1);
            if op == 0x10 {
                self.reference_points = (v, self.reference_points.1, self.reference_points.2);
            } else if op == 0x11 {
                self.reference_points = (self.reference_points.0, v, self.reference_points.2);
            } else if op == 0x12 {
                self.reference_points = (self.reference_points.0, self.reference_points.1, v);
            } else if op == 0x13 {
                self.zone_points = (v, self.zone_points.1, self.zone_points.2);
            } else if op == 0x14 {
                self.zone_points = (self.zone_points.0, v, self.zone_points.2);
            } else if op == 0x15 {
                self.zone_points = (self.zone_points.0, self.zone_points.1, v);
            } else {
                self.zone_points = (v, v, v);
            }
        } else if op == 0x19 {
            self.round_state = RoundState::RoundToHalfGrid;
        } else if op == 0x18 {
            self.round_state = RoundState::RoundToGrid;
        } else if op == 0x3d {
            self.round_state = RoundState::RoundToDoubleGrid;
        } else if op == 0x7c {
            self.round_state = RoundState::RoundUpToGrid;
        } else if op == 0x7a {
            self.round_state = RoundState::RoundOff;
        } else if op == 0x76 || op == 0x85 || op == 0x21 {
            // `SROUND` and `SCANCTRL` take a value that is not used here; `POP` drops one.
            self.stack.truncate(n - 1);
        } else if op == 0x4b {
            // We always scale both axes in the same direction, so we don't have to look at the
            // projection vector.
            self.stack.push(self.ppem);
        } else if op == 0x20 {
            let v = self.stack[n - 1];
            self.stack.push(v);
        } else if op == 0x22 {
            self.stack.clear();
        } else if op == 0x23 {
            let a = self.stack[n - 1];
            let b = self.stack[n - 2];
            self.stack.truncate(n - 2);
            self.stack.push(a);
            self.stack.push(b);
        } else if op == 0x26 {
            let index = self.stack[n - 1];
            self.stack.truncate(n - 1);
            if index < 0 || index as usize >= self.stack.len() {
                assert(self@ =~= state_spec(s, op).1);
                return Err(HintingExecutionError::StackUnderflow);
            }
            let r = self.stack.len() - 1 - index as usize;
            let v = self.stack.remove(r);
            self.stack.push(v);
            assert(self@ =~= state_spec(s, op).1);
        }
        assert(self@ =~= state_spec(s, op).1);
        Ok(())
    }
}

impl<'a> Hinter<'a> {
    /// Executes `IF`, `ELSE`, `FDEF` or `CALL` at the top frame `frame` (see `control_spec`);
    /// the result is the new program counter.
    #[verifier::rlimit(50)]
    fn exec_control(&mut self, op: u8, frame: Frame, next: usize) -> (r: Result<usize, HintingExecutionError>)
        requires
            old(self).wf(),
            is_control_op(op),
            old(self)@.call_stack.len() > 0,
            old(self)@.call_stack.last() == frame,
        ensures
            final(self).wf(),
            final(self).scripts@ == old(self).scripts@,
            final(self)@ == control_spec(old(self)@, frame, op, next as int).1,
            match r {
                Ok(p) => control_spec(old(self)@, frame, op, next as int).0 is Ok
                    && control_spec(old(self)@, frame, op, next as int).2 == p as int,
                Err(e) => control_spec(old(self)@, frame, op, next as int).0 == Err::<(), HintingExecutionError>(e),
            },
    {
        let ghost s = self@;
        proof {
            assert(frame == self.call_stack@[self.call_stack@.len() - 1]);
            assert(frame.script < s.scripts.len());
            assert(s.scripts[frame.script as int] == script_view(self.scripts@[frame.script as int]));
            assert(targets_sorted(s.scripts[frame.script as int].branch_targets));
        }
        let targets = self.scripts[frame.script].branch_targets();
        if op == 0x1b {
            // The only way we get here is by falling off the end of a then-branch. So jump to
            // the instruction following the matching `EIF`.
            return match find_target(targets, frame.pc) {
                Some(t) => if t < usize::MAX {
                    Ok(t + 1)
                } else {
                    Err(HintingExecutionError::BadBranchTarget)
                },
                None => Err(HintingExecutionError::BadBranchTarget),
            };
        }
        let n = self.stack.len();
        if n < 1 {
            self.stack.clear();
            assert(self@ =~= control_spec(s, frame, op, next as int).1);
            return Err(HintingExecutionError::StackUnderflow);
        }
        let v = self.stack[n - 1];
        self.stack.truncate(n - 1);
        if op == 0x58 {
            assert(self@ =~= control_spec(s, frame, op, next as int).1);
            if v != 0 {
                return Ok(next);
            }
            // Move to the instruction following `ELSE` or `EIF`.
            return match find_target(targets, frame.pc) {
                Some(t) => if t < usize::MAX {
                    Ok(t + 1)
                } else {
                    Err(HintingExecutionError::BadBranchTarget)
                },
                None => Err(HintingExecutionError::BadBranchTarget),
            };
        } else if op == 0x2c {
            if v < 0 {
                assert(self@ =~= control_spec(s, frame, op, next as int).1);
                return Err(HintingExecutionError::NegativeIndex);
            }
            let id = v as usize;
            let ghost funcs0 = self.functions@;
            grow_with_none(&mut self.functions, id);
            proof {
                assert forall|i: int| 0 <= i < self@.functions.len() implies (#[trigger] self@.functions[i] matches Some(f)
                    ==> f.script < self@.scripts.len()) by {
                    if i < funcs0.len() {
                        assert(self@.functions[i] == s.functions[i]);
                    }
                }
            }
            match find_target(targets, frame.pc) {
                Some(t) => if t < usize::MAX {
                    self.functions.set(id, Some(Frame::new(next, t, frame.script)));
                    assert(self@ =~= control_spec(s, frame, op, next as int).1);
                    Ok(t + 1)
                } else {
                    assert(self@ =~= control_spec(s, frame, op, next as int).1);
                    Err(HintingExecutionError::BadBranchTarget)
                },
                None => {
                    assert(self@ =~= control_spec(s, frame, op, next as int).1);
                    Err(HintingExecutionError::BadBranchTarget)
                },
            }
        } else {
            let found = if v >= 0 && (v as usize) < self.functions.len() {
                self.functions[v as usize]
            } else {
                None
            };
            match found {
                Some(function) => {
                    assert(s.functions[v as int] matches Some(f) ==> f.script < s.scripts.len());
                    // Save our return address, then jump to the new function.
                    let last = self.call_stack.len() - 1;
                    self.call_stack.set(last, Frame::new(next, frame.end, frame.script));
                    self.call_stack.push(function);
                    assert(self@ =~= control_spec(s, frame, op, next as int).1);
                    Ok(function.pc)
                },
                None => {
                    assert(self@ =~= control_spec(s, frame, op, next as int).1);
                    Err(HintingExecutionError::CallToUndefinedFunction)
                },
            }
        }
    }
}

/// Grows `functions` with `None` until it holds index `a`.
fn grow_with_none(functions: &mut Vec<Option<Frame>>, a: usize)
    requires
        a < usize::MAX,
    ensures
        final(functions)@ == if old(functions)@.len() <= a {
            old(functions)@ + Seq::new((a + 1 - old(functions)@.len()) as nat, |i: int| None::<Frame>)
        } else {
            old(functions)@
        },
{
    let ghost f0 = functions@;
    while functions.len() <= a
        invariant
            a < usize::MAX,
            f0.len() <= functions@.len(),
            f0.len() <= a + 1 ==> functions@.len() <= a + 1,
            f0.len() > a ==> functions@.len() == f0.len(),
            functions@ =~= f0 + Seq::new((functions@.len() - f0.len()) as nat, |i: int| None::<Frame>),
        decreases a + 1 - functions@.len(),
    {
        functions.push(None);
        assert(functions@ =~= f0 + Seq::new((functions@.len() - f0.len()) as nat, |i: int| None::<Frame>));
    }
    proof {
        if f0.len() > a {
            assert(functions@ =~= f0);
        }
    }
}

impl<'a> Hinter<'a> {
    /// Runs one step (see `step_spec`): `Ok(true)` once no frame is left to run.
    #[verifier::rlimit(80)]
    pub fn step(&mut self) -> (r: Result<bool, HintingExecutionError>)
        requires
            old(self).wf(),
        ensures
            final(self).wf(),
            (r, final(self)@) == step_spec(old(self)@),
    {
        let ghost s = self@;
        // Fetch the current frame.
        let n = self.call_stack.len();
        if n == 0 {
            return Ok(true);
        }
        let frame = self.call_stack[n - 1];
        if frame.pc == frame.end {
            self.call_stack.pop();
            proof {
                assert(self@ =~= step_spec(s).1);
            }
            return Ok(false);
        }
        proof {
            assert(frame.script < s.scripts.len());
            assert(s.scripts[frame.script as int] == script_view(self.scripts@[frame.script as int]));
        }
        // Decode the next instruction, and advance the program counter.
        let code = self.scripts[frame.script].bytecode();
        let ghost data = code@;
        let mut next = frame.pc;
        let instruction = match Instruction::parse(code, &mut next) {
            Ok(instruction) => instruction,
            Err(e) => {
                proof {
                    if frame.pc < data.len() {
                        assert(crate::hinting::interp::step(data, frame.pc as int) == Err::<(u8, int), ParseError>(e));
                    }
                }
                return Err(HintingExecutionError::ParseError(e));
            },
        };
        let op = code[frame.pc];
        assert(crate::hinting::interp::step(data, frame.pc as int) == Ok::<(u8, int), ParseError>((op, next as int)));
        // Execute it.
        let new_pc: usize = match instruction {
            Instruction::Pushb(bytes) => {
                let ghost st0 = self.stack@;
                let mut k: usize = 0;
                while k < bytes.len()
                    invariant
                        k <= bytes@.len(),
                        self.stack@ == st0 + byte_values(bytes@.take(k as int)),
                        self.scripts@ == old(self).scripts@,
                        self.functions@ == old(self).functions@,
                        self.call_stack@ == old(self).call_stack@,
                        self.storage_area@ == old(self).storage_area@,
                        self.control_value_table@ == old(self).control_value_table@,
                        self.ppem == old(self).ppem,
                        self.projection_vector == old(self).projection_vector,
                        self.freedom_vector == old(self).freedom_vector,
                        self.reference_points == old(self).reference_points,
                        self.zone_points == old(self).zone_points,
                        self.round_state == old(self).round_state,
                    decreases bytes@.len() - k,
                {
                    self.stack.push(bytes[k] as i32);
                    assert(byte_values(bytes@.take(k as int + 1)) =~= byte_values(bytes@.take(k as int)).push(bytes@[k as int] as i32));
                    k = k + 1;
                }
                assert(bytes@.take(bytes@.len() as int) =~= bytes@);
                assert(self@ =~= op_spec(s, frame, data, op, next as int).1);
                next
            },
            Instruction::Pushw(bytes) => {
                let ghost st0 = self.stack@;
                let blen = bytes.len();
                let count = blen / 2;
                let mut k: usize = 0;
                while k < count
                    invariant
                        blen == bytes@.len(),
                        count == bytes@.len() / 2,
                        k <= count,
                        self.stack@ =~= st0 + word_values(bytes@).take(k as int),
                        self.scripts@ == old(self).scripts@,
                        self.functions@ == old(self).functions@,
                        self.call_stack@ == old(self).call_stack@,
                        self.storage_area@ == old(self).storage_area@,
                        self.control_value_table@ == old(self).control_value_table@,
                        self.ppem == old(self).ppem,
                        self.projection_vector == old(self).projection_vector,
                        self.freedom_vector == old(self).freedom_vector,
                        self.reference_points == old(self).reference_points,
                        self.zone_points == old(self).zone_points,
                        self.round_state == old(self).round_state,
                    decreases count - k,
                {
                    assert(2 * k + 2 <= blen);
                    assert(fits(bytes@, 2 * k as int, 2));
                    let at: usize = k + k;
                    match i16_at(bytes, at) {
                        Ok(w) => {
                            self.stack.push(w as i32);
                        },
                        Err(_) => {},
                    }
                    assert(word_values(bytes@).take(k as int + 1) =~= word_values(bytes@).take(k as int).push(
                        be_i16(bytes@, 2 * k as int) as i32,
                    ));
                    k = k + 1;
                }
                assert(word_values(bytes@).take(count as int) =~= word_values(bytes@));
                assert(self@ =~= op_spec(s, frame, data, op, next as int).1);
                next
            },
            _ => {
                if op == 0x58 || op == 0x1b || op == 0x2c || op == 0x2b {
                    match self.exec_control(op, frame, next) {
                        Ok(p) => p,
                        Err(e) => {
                            return Err(e);
                        },
                    }
                } else if (0x50 <= op && op <= 0x55) || op == 0x5a || op == 0x5b || (0x60 <= op
                    && op <= 0x63) || op == 0x8b || op == 0x8c || op == 0x5c || op == 0x64 || op
                    == 0x65 || op == 0x88 {
                    match self.exec_arith(op) {
                        Ok(()) => next,
                        Err(e) => {
                            return Err(e);
                        },
                    }
                } else {
                    match self.exec_state(op) {
                        Ok(()) => next,
                        Err(e) => {
                            return Err(e);
                        },
                    }
                }
            },
        };
        // Advance the program counter.
        let last = self.call_stack.len() - 1;
        let top = self.call_stack[last];
        self.call_stack.set(last, Frame::new(new_pc, top.end, top.script));
        proof {
            assert(self@ =~= step_spec(s).1);
        }
        Ok(false)
    }

    /// Runs at most `max_steps` steps (see `run_spec`): `Ok(true)` once no frame is left to
    /// run, `Ok(false)` if frames are still left after `max_steps` steps.
    pub fn exec(&mut self, max_steps: u64) -> (r: Result<bool, HintingExecutionError>)
        requires
            old(self).wf(),
        ensures
            final(self).wf(),
            (r, final(self)@) == run_spec(old(self)@, max_steps as nat),
    {
        let ghost s0 = self@;
        let mut remaining = max_steps;
        while remaining > 0
            invariant
                self.wf(),
                s0 == old(self)@,
                run_spec(s0, max_steps as nat) == run_spec(self@, remaining as nat),
            decreases remaining,
        {
            let ghost before = self@;
            let step = self.step();
            proof {
                assert(run_spec(before, remaining as nat) == match step_spec(before) {
                    (Ok(false), next) => run_spec(next, (remaining - 1) as nat),
                    other => other,
                });
            }
            match step {
                Ok(true) => {
                    return Ok(true);
                },
                Ok(false) => {
                    remaining = remaining - 1;
                },
                Err(e) => {
                    return Err(e);
                },
            }
        }
        Ok(false)
    }
}

} // verus!
