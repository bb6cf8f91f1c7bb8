use pathfinder_font::hinting::insns::{Instruction, ParseError};
use pathfinder_font::hinting::interp::{Frame, HintingAnalysisError, Script};
use pathfinder_font::hinting::vm::{Hinter, HintingExecutionError, RoundState, UnitVector};

#[test]
fn parse_push_and_plain_instructions() {
    let code = [0xb1u8, 7, 8, 0x40, 2, 1, 2, 0x1b, 0x8f];
    let mut pc = 0;
    match Instruction::parse(&code, &mut pc) {
        Ok(Instruction::Pushb(data)) => assert_eq!(data, &[7, 8]),
        other => panic!("unexpected {:?}", other),
    }
    assert_eq!(pc, 3);
    match Instruction::parse(&code, &mut pc) {
        Ok(Instruction::Pushb(data)) => assert_eq!(data, &[1, 2]),
        other => panic!("unexpected {:?}", other),
    }
    assert_eq!(pc, 7);
    assert!(matches!(Instruction::parse(&code, &mut pc), Ok(Instruction::Else)));
    assert!(matches!(Instruction::parse(&code, &mut pc), Err(ParseError::UnknownOpcode)));
    assert_eq!(pc, 9);
    assert!(matches!(Instruction::parse(&code, &mut pc), Err(ParseError::Eof)));
    let short = [0xb2u8, 1];
    let mut pc = 0;
    assert!(matches!(Instruction::parse(&short, &mut pc), Err(ParseError::UnexpectedEof)));
}

#[test]
fn script_matches_branches() {
    // IF ... ELSE ... EIF, then FDEF ... ENDF.
    let code = [0x58u8, 0x1b, 0x59, 0x2c, 0x2d];
    let script = Script::new(&code).unwrap();
    assert_eq!(script.len(), 5);
    assert!(matches!(Script::new(&[0x59u8]), Err(HintingAnalysisError::BranchTargetMissingBranch)));
    assert!(matches!(Script::new(&[0x58u8]), Err(HintingAnalysisError::BranchMissingBranchTarget)));
    assert!(matches!(Script::new(&[0x2cu8, 0x59]), Err(HintingAnalysisError::MismatchedBranchInstruction)));
}

/// Runs `code` as the only script to the end, giving the stack, or the error that stopped it.
fn run(code: &[u8], cvt: Vec<i32>) -> (Result<Vec<i32>, HintingExecutionError>, Vec<i32>) {
    let script = Script::new(code).unwrap();
    let mut hinter = Hinter::new(vec![script], cvt, 12);
    hinter.call_script(0).unwrap();
    for _ in 0..1000 {
        match hinter.step() {
            Ok(true) => return (Ok(hinter.stack.clone()), hinter.storage_area.clone()),
            Ok(false) => {}
            Err(e) => return (Err(e), hinter.storage_area.clone()),
        }
    }
    panic!("program did not stop");
}

#[test]
fn hinter_arithmetic_in_26_dot_6() {
    // 3 + 5; 2.0 * 3.0; 6.0 / 2.0 (as 384 / 128); 1.0 / 0 gives 0.
    assert_eq!(run(&[0xb1, 3, 5, 0x60], vec![]).0, Ok(vec![8]));
    assert_eq!(run(&[0xb1, 128, 192, 0x63], vec![]).0, Ok(vec![384]));
    assert_eq!(run(&[0xb8, 1, 128, 0xb0, 128, 0x62], vec![]).0, Ok(vec![192]));
    assert_eq!(run(&[0xb1, 64, 0, 0x62], vec![]).0, Ok(vec![0]));
    // -2 (a pushed word) times 1.5 (96): -2 * 96 / 64 = -3.
    assert_eq!(run(&[0xb8, 0xff, 0xfe, 0xb0, 96, 0x63], vec![]).0, Ok(vec![-3]));
    assert_eq!(run(&[0xb8, 0xff, 0xfe, 0x65, 0xb8, 0xff, 0xf9, 0x64], vec![]).0, Ok(vec![2, 7]));
    assert_eq!(run(&[0xb1, 9, 4, 0x61], vec![]).0, Ok(vec![5]));
}

#[test]
fn hinter_min_and_max() {
    assert_eq!(run(&[0xb1, 3, 7, 0x8c], vec![]).0, Ok(vec![3]));
    assert_eq!(run(&[0xb1, 3, 7, 0x8b], vec![]).0, Ok(vec![7]));
}

#[test]
fn hinter_comparisons_and_logic() {
    assert_eq!(run(&[0xb1, 3, 7, 0x50, 0xb1, 3, 7, 0x52, 0xb1, 4, 4, 0x54], vec![]).0, Ok(vec![1, 0, 1]));
    assert_eq!(run(&[0xb1, 1, 0, 0x5a, 0xb1, 1, 0, 0x5b, 0xb0, 0, 0x5c], vec![]).0, Ok(vec![0, 1, 1]));
}

#[test]
fn hinter_if_else() {
    let program = |cond: u8| vec![0xb0, cond, 0x58, 0xb0, 1, 0x1b, 0xb0, 2, 0x59, 0xb0, 9];
    assert_eq!(run(&program(0), vec![]).0, Ok(vec![2, 9]));
    assert_eq!(run(&program(5), vec![]).0, Ok(vec![1, 9]));
}

#[test]
fn hinter_functions() {
    // Define function 0 to push 42, then call it twice.
    let code = [0xb0, 0, 0x2c, 0xb0, 42, 0x2d, 0xb0, 0, 0x2b, 0xb0, 0, 0x2b, 0xb0, 7];
    assert_eq!(run(&code, vec![]).0, Ok(vec![42, 42, 7]));
    assert_eq!(run(&[0xb0, 3, 0x2b], vec![]).0, Err(HintingExecutionError::CallToUndefinedFunction));
}

#[test]
fn hinter_memory_and_stack() {
    let (stack, storage) = run(&[0xb1, 4, 9, 0x42, 0xb0, 4, 0x43, 0xb0, 2, 0x43], vec![]);
    assert_eq!(stack, Ok(vec![9, 0]));
    assert_eq!(storage, vec![0, 0, 0, 0, 9]);
    assert_eq!(run(&[0xb0, 1, 0x45], vec![10, 20]).0, Ok(vec![20]));
    assert_eq!(run(&[0xb0, 2, 0x45], vec![10, 20]).0, Err(HintingExecutionError::CvtReadOutOfBounds));
    // DUP, SWAP, MINDEX, POP, CLEAR, MPPEM.
    assert_eq!(run(&[0xb1, 1, 2, 0x20, 0x23], vec![]).0, Ok(vec![1, 2, 2]));
    assert_eq!(run(&[0xb3, 1, 2, 3, 2, 0x26], vec![]).0, Ok(vec![2, 3, 1]));
    assert_eq!(run(&[0xb1, 1, 2, 0x21, 0x4b], vec![]).0, Ok(vec![1, 12]));
    assert_eq!(run(&[0xb1, 1, 2, 0x22], vec![]).0, Ok(vec![]));
    assert_eq!(run(&[0x60], vec![]).0, Err(HintingExecutionError::StackUnderflow));
    assert_eq!(run(&[0xb0, 1, 0x23], vec![]).0, Err(HintingExecutionError::StackUnderflow));
    assert_eq!(run(&[0xb8, 0xff, 0xff, 0xb0, 5, 0x42], vec![]).0, Err(HintingExecutionError::NegativeIndex));
}

#[test]
fn hinter_getinfo_and_graphics_state() {
    let getinfo = [0xb0, 1, 0x88, 0xb0, 32, 0x88, 0xb0, 33, 0x88, 0xb0, 2, 0x88];
    assert_eq!(run(&getinfo, vec![]).0, Ok(vec![35, 0x1000, 35 | 0x1000, 0]));
    let script = Script::new(&[0x01, 0x04, 0xb0, 7, 0x11, 0xb0, 2, 0x16, 0x18]).unwrap();
    let mut hinter = Hinter::new(vec![script], vec![], 12);
    hinter.call_script(0).unwrap();
    while !hinter.step().unwrap() {}
    assert_eq!(hinter.projection_vector, UnitVector { x: 0x4000, y: 0 });
    assert_eq!(hinter.freedom_vector, UnitVector { x: 0, y: 0x4000 });
    assert_eq!(hinter.reference_points, (0, 7, 0));
    assert_eq!(hinter.zone_points, (2, 2, 2));
    assert_eq!(hinter.round_state, RoundState::RoundToGrid);
    assert_eq!(hinter.call_script(1), Err(HintingExecutionError::CallToUndefinedFunction));
}

#[test]
fn hinter_exec_runs_within_a_step_budget() {
    // PUSHB[1] 3 5, ADD, DUP: three steps, then one more that leaves the finished frame.
    let code = [0xb1u8, 3, 5, 0x60, 0x20];
    let mut whole = Hinter::new(vec![Script::new(&code).unwrap()], vec![], 12);
    whole.call_script(0).unwrap();
    assert!(whole.is_well_formed());
    assert_eq!(whole.exec(0), Ok(false));
    assert_eq!(whole.exec(2), Ok(false));
    assert_eq!(whole.stack, vec![8]);
    assert_eq!(whole.exec(1), Ok(false));
    assert_eq!(whole.stack, vec![8, 8]);
    assert_eq!(whole.exec(10), Ok(true));
    assert!(whole.call_stack.is_empty());
    // Five steps in one go end as two and then three do.
    let mut at_once = Hinter::new(vec![Script::new(&code).unwrap()], vec![], 12);
    at_once.call_script(0).unwrap();
    assert_eq!(at_once.exec(5), Ok(true));
    assert_eq!(at_once.stack, whole.stack);
    // A failing step stops the run with its error.
    let mut failing = Hinter::new(vec![Script::new(&[0x60u8]).unwrap()], vec![], 12);
    failing.call_script(0).unwrap();
    assert_eq!(failing.exec(u64::MAX), Err(HintingExecutionError::StackUnderflow));
    // A frame that names a missing script breaks the machine's invariant.
    failing.call_stack.push(Frame::new(0, 1, 3));
    assert!(!failing.is_well_formed());
}
