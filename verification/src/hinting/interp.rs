//! Control-flow analysis of TrueType hinting programs.
//!
//! Before a program runs, its branch instructions (`IF`, `ELSE`, `FDEF`, `IDEF`) are matched
//! with the instructions that end them (`ELSE`, `EIF`, `ENDF`), so that a jump can find its
//! target by binary search.

use vstd::prelude::*;

use crate::hinting::insns::{
    has_bad_distance_type, is_plain_op, is_push, is_push_bytes_op, is_push_words_op, opcode,
    short_push_count, Instruction, ParseError,
};

verus! {

/// Errors found while matching the branches of a hinting program.
#[derive(Copy, Clone, Debug, PartialEq, Eq, Structural)]
pub enum HintingAnalysisError {
    /// An instruction could not be decoded.
    ParseError(ParseError),
    /// An `ELSE`, `EIF` or `ENDF` had no open branch to close.
    BranchTargetMissingBranch,
    /// An `ELSE`, `EIF` or `ENDF` closed a branch of the wrong kind.
    MismatchedBranchInstruction,
    /// The program ended with a branch still open.
    BranchMissingBranchTarget,
}

pub const OP_IF: u8 = 0x58;
pub const OP_ELSE: u8 = 0x1b;
pub const OP_EIF: u8 = 0x59;
pub const OP_FDEF: u8 = 0x2c;
pub const OP_ENDF: u8 = 0x2d;
pub const OP_IDEF: u8 = 0x89;

/// A branch instruction and the instruction that ends it.
#[derive(Clone, Copy, Debug, PartialEq, Eq, Structural)]
pub struct BranchTarget {
    /// Where the branch instruction is.
    pub branch_location: usize,
    /// Where the instruction that ends the branch is.
    pub target_location: usize,
}

/// A hinting program together with its matched branches.
pub struct Script<'a> {
    bytecode: &'a [u8],
    branch_targets: Vec<BranchTarget>,
}

/// How `Instruction::parse` advances at `pc`: the opcode and the position after the
/// instruction, or the error. Only meaningful for `pc` within the program.
pub open spec fn step(data: Seq<u8>, pc: int) -> Result<(u8, int), ParseError> {
    let op = data[pc];
    if is_push_bytes_op(op) || is_push_words_op(op) {
        let counted = op == 0x40 || op == 0x41;
        let width: int = if is_push_bytes_op(op) { 1 } else { 2 };
        if counted && pc + 1 >= data.len() {
            Err(ParseError::UnexpectedEof)
        } else {
            let count = if counted { data[pc + 1] as int } else { short_push_count(op) };
            let start = if counted { pc + 2 } else { pc + 1 };
            if start + count * width <= data.len() {
                Ok((op, start + count * width))
            } else {
                Err(ParseError::UnexpectedEof)
            }
        }
    } else if is_plain_op(op) {
        Ok((op, pc + 1))
    } else if has_bad_distance_type(op) {
        Err(ParseError::InvalidDistanceType)
    } else {
        Err(ParseError::UnknownOpcode)
    }
}

/// Closes the open branch on top of `pending` at `pc`, provided it was opened by one of the
/// opcodes `a` or `b`.
pub open spec fn close_branch(
    pending: Seq<(usize, u8)>,
    targets: Seq<BranchTarget>,
    pc: int,
    a: u8,
    b: u8,
) -> Result<(Seq<(usize, u8)>, Seq<BranchTarget>), HintingAnalysisError> {
    if pending.len() == 0 {
        Err(HintingAnalysisError::BranchTargetMissingBranch)
    } else {
        let (index, op) = pending.last();
        if op == a || op == b {
            Ok(
                (
                    pending.drop_last(),
                    targets.update(
                        index as int,
                        BranchTarget {
                            branch_location: targets[index as int].branch_location,
                            target_location: pc as usize,
                        },
                    ),
                ),
            )
        } else {
            Err(HintingAnalysisError::MismatchedBranchInstruction)
        }
    }
}

/// The branch matching of a program from `pc` on, given the branches still open (each with
/// the index of its entry in `targets` and its opcode) and the entries made so far.
pub open spec fn scan(
    data: Seq<u8>,
    pc: int,
    pending: Seq<(usize, u8)>,
    targets: Seq<BranchTarget>,
) -> Result<Seq<BranchTarget>, HintingAnalysisError>
    decreases data.len() - pc,
{
    if pc < 0 || pc >= data.len() {
        if pending.len() == 0 {
            Ok(targets)
        } else {
            Err(HintingAnalysisError::BranchMissingBranchTarget)
        }
    } else {
        match step(data, pc) {
            Err(e) => Err(HintingAnalysisError::ParseError(e)),
            Ok((op, next)) => {
                if next <= pc {
                    Err(HintingAnalysisError::ParseError(ParseError::UnexpectedEof))
                } else if op == OP_IF || op == OP_FDEF || op == OP_IDEF {
                    scan(
                        data,
                        next,
                        pending.push((targets.len() as usize, op)),
                        targets.push(
                            BranchTarget { branch_location: pc as usize, target_location: 0 },
                        ),
                    )
                } else if op == OP_ENDF {
                    match close_branch(pending, targets, pc, OP_FDEF, OP_IDEF) {
                        Err(e) => Err(e),
                        Ok((p, t)) => scan(data, next, p, t),
                    }
                } else if op == OP_EIF {
                    match close_branch(pending, targets, pc, OP_IF, OP_ELSE) {
                        Err(e) => Err(e),
                        Ok((p, t)) => scan(data, next, p, t),
                    }
                } else if op == OP_ELSE {
                    match close_branch(pending, targets, pc, OP_IF, OP_IF) {
                        Err(e) => Err(e),
                        Ok((p, t)) => scan(
                            data,
                            next,
                            p.push((t.len() as usize, op)),
                            t.push(
                                BranchTarget { branch_location: pc as usize, target_location: 0 },
                            ),
                        ),
                    }
                } else {
                    scan(data, next, pending, targets)
                }
            },
        }
    }
}

/// True when the entries are in strictly increasing order of branch location, as the binary
/// searches over them need.
pub open spec fn targets_sorted(t: Seq<BranchTarget>) -> bool {
    forall|i: int, j: int| 0 <= i < j < t.len() ==> #[trigger] t[i].branch_location < #[trigger] t[j].branch_location
}

/// The facts about the scan state that every step keeps: entries sorted and before `pc`, and
/// every open branch pointing at an entry.
pub open spec fn scan_state_ok(pc: int, pending: Seq<(usize, u8)>, targets: Seq<BranchTarget>) -> bool {
    &&& targets_sorted(targets)
    &&& forall|i: int| 0 <= i < targets.len() ==> (#[trigger] targets[i]).branch_location < pc
    &&& forall|i: int| 0 <= i < pending.len() ==> (#[trigger] pending[i]).0 < targets.len()
}

/// The scan keeps the entries sorted by branch location.
pub proof fn lemma_scan_sorted(data: Seq<u8>, pc: int, pending: Seq<(usize, u8)>, targets: Seq<BranchTarget>)
    requires
        0 <= pc,
        pc <= usize::MAX,
        data.len() <= usize::MAX,
        scan_state_ok(pc, pending, targets),
    ensures
        scan(data, pc, pending, targets) matches Ok(t) ==> targets_sorted(t),
    decreases data.len() - pc,
{
    if pc < data.len() {
        match step(data, pc) {
            Err(e) => {},
            Ok((op, next)) => {
                if next <= pc {
                } else if op == OP_IF || op == OP_FDEF || op == OP_IDEF {
                    let t = targets.push(BranchTarget { branch_location: pc as usize, target_location: 0 });
                    let p = pending.push((targets.len() as usize, op));
                    assert(scan_state_ok(next, p, t)) by {
                        assert forall|i: int| 0 <= i < p.len() implies (#[trigger] p[i]).0 < t.len() by {
                            if i < pending.len() { assert(p[i] == pending[i]); }
                        }
                        assert forall|i: int, j: int| 0 <= i < j < t.len() implies #[trigger] t[i].branch_location < #[trigger] t[j].branch_location by {
                            if j < targets.len() { assert(t[i] == targets[i]); assert(t[j] == targets[j]); }
                            else { assert(t[i] == targets[i]); }
                        }
                        assert forall|i: int| 0 <= i < t.len() implies (#[trigger] t[i]).branch_location < next by {
                            if i < targets.len() { assert(t[i] == targets[i]); }
                        }
                    }
                    lemma_scan_sorted(data, next, p, t);
                } else if op == OP_ENDF || op == OP_EIF || op == OP_ELSE {
                    let (a, b) = if op == OP_ENDF { (OP_FDEF, OP_IDEF) } else if op == OP_EIF { (OP_IF, OP_ELSE) } else { (OP_IF, OP_IF) };
                    match close_branch(pending, targets, pc, a, b) {
                        Err(e) => {},
                        Ok((p, t)) => {
                            let (index, bop) = pending.last();
                            assert(index < targets.len());
                            assert(t.len() == targets.len());
                            assert forall|i: int| 0 <= i < t.len() implies #[trigger] t[i].branch_location == targets[i].branch_location by {}
                            assert forall|i: int| 0 <= i < p.len() implies (#[trigger] p[i]).0 < t.len() by {
                                assert(p[i] == pending[i]);
                            }
                            if op == OP_ELSE {
                                let t2 = t.push(BranchTarget { branch_location: pc as usize, target_location: 0 });
                                let p2 = p.push((t.len() as usize, op));
                                assert(scan_state_ok(next, p2, t2)) by {
                                    assert forall|i: int| 0 <= i < p2.len() implies (#[trigger] p2[i]).0 < t2.len() by {
                                        if i < p.len() { assert(p2[i] == p[i]); }
                                    }
                                    assert forall|i: int, j: int| 0 <= i < j < t2.len() implies #[trigger] t2[i].branch_location < #[trigger] t2[j].branch_location by {
                                        assert(t2[i].branch_location == targets[i].branch_location);
                                        if j < t.len() { assert(t2[j].branch_location == targets[j].branch_location); }
                                    }
                                    assert forall|i: int| 0 <= i < t2.len() implies (#[trigger] t2[i]).branch_location < next by {
                                        if i < t.len() { assert(t2[i].branch_location == targets[i].branch_location); }
                                    }
                                }
                                lemma_scan_sorted(data, next, p2, t2);
                            } else {
                                assert(scan_state_ok(next, p, t)) by {
                                    assert forall|i: int, j: int| 0 <= i < j < t.len() implies #[trigger] t[i].branch_location < #[trigger] t[j].branch_location by {
                                        assert(t[i].branch_location == targets[i].branch_location);
                                        assert(t[j].branch_location == targets[j].branch_location);
                                    }
                                    assert forall|i: int| 0 <= i < t.len() implies (#[trigger] t[i]).branch_location < next by {
                                        assert(t[i].branch_location == targets[i].branch_location);
                                    }
                                }
                                lemma_scan_sorted(data, next, p, t);
                            }
                        },
                    }
                } else {
                    lemma_scan_sorted(data, next, pending, targets);
                }
            },
        }
    }
}

impl<'a> Script<'a> {
    /// The program.
    pub closed spec fn bytecode_spec(&self) -> Seq<u8> {
        self.bytecode@
    }

    /// The matched branches, in order of branch location.
    pub closed spec fn branch_targets_spec(&self) -> Seq<BranchTarget> {
        self.branch_targets@
    }

    /// Analyzes a program: every `IF` is matched with its `ELSE` or `EIF`, every `ELSE` with
    /// its `EIF`, and every `FDEF` or `IDEF` with its `ENDF`.
    pub fn new<'b>(bytecode: &'b [u8]) -> (r: Result<Script<'b>, HintingAnalysisError>)
        ensures
            match scan(bytecode@, 0, Seq::empty(), Seq::empty()) {
                Ok(t) => r matches Ok(s) && s.bytecode_spec() == bytecode@ && s.branch_targets_spec() == t
                    && targets_sorted(t),
                Err(e) => r == Err::<Script, HintingAnalysisError>(e),
            },
    {
        let mut interpreter = Script { bytecode: bytecode, branch_targets: Vec::new() };
        match interpreter.populate_branch_targets() {
            Ok(()) => {
                proof {
                    assert(bytecode@.len() == bytecode.len());
                    lemma_scan_sorted(bytecode@, 0, Seq::empty(), Seq::empty());
                }
                Ok(interpreter)
            },
            Err(e) => Err(e),
        }
    }

    /// The program.
    pub fn bytecode(&self) -> (r: &'a [u8])
        ensures
            r@ == self.bytecode_spec(),
    {
        self.bytecode
    }

    /// The matched branches, in order of branch location.
    pub fn branch_targets(&self) -> (r: &Vec<BranchTarget>)
        ensures
            r@ == self.branch_targets_spec(),
    {
        &self.branch_targets
    }

    /// The length of the program in bytes.
    pub fn len(&self) -> (r: usize)
        ensures
            r == self.bytecode_spec().len(),
    {
        self.bytecode.len()
    }

    // This is a little bit tricky because we have to maintain sorted order of the
    // `branch_targets` array for future binary searches.
    fn populate_branch_targets(&mut self) -> (r: Result<(), HintingAnalysisError>)
        requires
            old(self).branch_targets@ == Seq::<BranchTarget>::empty(),
        ensures
            final(self).bytecode == old(self).bytecode,
            match scan(old(self).bytecode@, 0, Seq::empty(), Seq::empty()) {
                Ok(t) => r is Ok && final(self).branch_targets@ == t,
                Err(e) => r == Err::<(), HintingAnalysisError>(e),
            },
    {
        let mut pc: usize = 0;
        let mut pending: Vec<(usize, u8)> = Vec::new();
        let ghost data = self.bytecode@;
        loop
            invariant
                self.bytecode@ == data,
                self.bytecode == old(self).bytecode,
                pc <= data.len(),
                scan(data, pc as int, pending@, self.branch_targets@) == scan(
                    data,
                    0,
                    Seq::empty(),
                    Seq::empty(),
                ),
                forall|i: int| 0 <= i < pending@.len() ==> (#[trigger] pending@[i]).0 < self.branch_targets@.len(),
            ensures
                pc as int >= data.len(),
                self.bytecode == old(self).bytecode,
                scan(data, pc as int, pending@, self.branch_targets@) == scan(
                    data,
                    0,
                    Seq::empty(),
                    Seq::empty(),
                ),
            decreases data.len() - pc,
        {
            let location = pc;
            let ghost before_pc = pc as int;
            let instruction = match Instruction::parse(self.bytecode, &mut pc) {
                Ok(instruction) => instruction,
                Err(ParseError::Eof) => break,
                Err(err) => {
                    assert(step(data, before_pc) == Err::<(u8, int), ParseError>(err));
                    return Err(HintingAnalysisError::ParseError(err));
                },
            };
            assert(step(data, before_pc) == Ok::<(u8, int), ParseError>((data[before_pc], pc as int)));
            let kind = branch_kind(instruction);
            proof {
                lemma_branch_kind(instruction, data[before_pc]);
            }
            let op = kind;
            if op == OP_IF || op == OP_FDEF || op == OP_IDEF {
                let index = self.branch_targets.len();
                pending.push((index, op));
                self.branch_targets.push(BranchTarget { branch_location: location, target_location: 0 });
            } else if op == OP_ENDF || op == OP_EIF || op == OP_ELSE {
                let (a, b) = if op == OP_ENDF {
                    (OP_FDEF, OP_IDEF)
                } else if op == OP_EIF {
                    (OP_IF, OP_ELSE)
                } else {
                    (OP_IF, OP_IF)
                };
                let (index, branch_op) = match pending.pop() {
                    Some(entry) => entry,
                    None => return Err(HintingAnalysisError::BranchTargetMissingBranch),
                };
                if branch_op == a || branch_op == b {
                    let old_target = self.branch_targets[index];
                    self.branch_targets.set(
                        index,
                        BranchTarget { branch_location: old_target.branch_location, target_location: location },
                    );
                } else {
                    return Err(HintingAnalysisError::MismatchedBranchInstruction);
                }
                if op == OP_ELSE {
                    let index = self.branch_targets.len();
                    pending.push((index, op));
                    self.branch_targets.push(BranchTarget { branch_location: location, target_location: 0 });
                }
            }
            proof {
                assert forall|i: int| 0 <= i < pending@.len() implies (#[trigger] pending@[i]).0 < self.branch_targets@.len() by {}
            }
        }
        if pending.len() == 0 {
            Ok(())
        } else {
            Err(HintingAnalysisError::BranchMissingBranchTarget)
        }
    }
}

/// A point of execution in a hinting program.
#[derive(Clone, Copy, Debug, PartialEq, Eq, Structural)]
pub struct Frame {
    /// The current program counter.
    pub pc: usize,
    /// The PC at which to stop execution.
    pub end: usize,
    /// The index of the script.
    pub script: usize,
}

impl Frame {
    /// Creates a frame that runs script `script_index` from `pc` up to `end`.
    pub fn new(pc: usize, end: usize, script_index: usize) -> (r: Frame)
        ensures
            r.pc == pc,
            r.end == end,
            r.script == script_index,
    {
        Frame { pc: pc, end: end, script: script_index }
    }
}

/// The branch opcode that a decoded instruction stands for, or zero for any instruction that
/// neither opens nor closes a branch.
fn branch_kind(insn: Instruction) -> (r: u8)
    ensures
        r == branch_kind_of(insn),
{
    match insn {
        Instruction::If => OP_IF,
        Instruction::Else => OP_ELSE,
        Instruction::EIf => OP_EIF,
        Instruction::Fdef => OP_FDEF,
        Instruction::Endf => OP_ENDF,
        Instruction::Idef => OP_IDEF,
        _ => 0,
    }
}

/// The branch opcode that a decoded instruction stands for, or zero.
pub open spec fn branch_kind_of(insn: Instruction) -> u8 {
    match insn {
        Instruction::If => OP_IF,
        Instruction::Else => OP_ELSE,
        Instruction::EIf => OP_EIF,
        Instruction::Fdef => OP_FDEF,
        Instruction::Endf => OP_ENDF,
        Instruction::Idef => OP_IDEF,
        _ => 0,
    }
}

/// True for the six opcodes that open or close a branch.
pub open spec fn is_branch_op(op: u8) -> bool {
    op == OP_IF || op == OP_ELSE || op == OP_EIF || op == OP_FDEF || op == OP_ENDF || op == OP_IDEF
}

/// An instruction's opcode is a branch opcode exactly when the instruction is that branch
/// instruction.
proof fn lemma_branch_kind(insn: Instruction, op: u8)
    requires
        opcode(insn) == op || (is_push(insn) && (is_push_bytes_op(op) || is_push_words_op(op))),
    ensures
        is_branch_op(op) ==> branch_kind_of(insn) == op,
        !is_branch_op(op) ==> branch_kind_of(insn) == 0,
{
}

} // verus!
