use bf_interp::{
    BrainfuckRuntimeError, ByteSource, CellKind, Instruction, IoFailure, Pending, Program,
    RawInstruction, AutoNewlineWriter, VM,
};
use std::collections::HashMap;

const STEPS: u64 = 1_000_000;

fn no_input() -> ByteSource {
    ByteSource::new(vec![])
}

/// Should create a VM with specified number of cells in memory.
#[test]
fn specified_memory_size() {
    let program = Program::new("", "");
    let virtual_machine: VM<u8> = VM::new(10, true, &program);
    assert_eq!(virtual_machine.memory().len(), 10);
}

/// Should initialize pointer location to 0.
#[test]
fn initialize_pointer_location() {
    let program = Program::new("", "");
    let virtual_machine: VM<u8> = VM::new(10, true, &program);
    assert_eq!(virtual_machine.pointer(), 0);
}

/// Should successfully move pointer one place to the left.
#[test]
fn successfully_move_pointer_left() {
    let program = Program::new("", "<");
    let mut virtual_machine: VM<u8> = VM::new(10, false, &program);
    virtual_machine.set_pointer(1);
    let result = virtual_machine.interpret(&mut no_input(), &mut Vec::new(), STEPS);
    assert!(result.is_ok());
    assert_eq!(virtual_machine.pointer(), 0);
}

/// Should failed moving pointer one place to the left.
#[test]
fn unsuccessfully_move_pointer_left() {
    let program = Program::new("", "<");
    let mut virtual_machine: VM<u8> = VM::new(10, false, &program);
    let result = virtual_machine.interpret(&mut no_input(), &mut Vec::new(), STEPS);

    match result {
        Err(BrainfuckRuntimeError::CannotMoveLeftError(file_path, ins)) => {
            assert_eq!(file_path.as_str(), "");
            assert_eq!(ins, Instruction::new(1, 1, RawInstruction::MoveLeft));
        }
        _ => panic!("Unrecognized error type"),
    }

    assert_eq!(virtual_machine.pointer(), 0);
}

/// Should successfully move pointer one place to the right in normal case.
#[test]
fn successfully_move_pointer_right_normal_case() {
    let program = Program::new("", ">");
    let mut virtual_machine: VM<u8> = VM::new(10, false, &program);
    let result = virtual_machine.interpret(&mut no_input(), &mut Vec::new(), STEPS);
    assert!(result.is_ok());
    assert_eq!(virtual_machine.pointer(), 1);
}

/// Should successfully move pointer one place to the right when extension is allowed and needed.
#[test]
fn successfully_move_pointer_right_at_right_edge() {
    let program = Program::new("", ">");
    let mut virtual_machine: VM<u8> = VM::new(2, true, &program);
    virtual_machine.set_pointer(1);
    let result = virtual_machine.interpret(&mut no_input(), &mut Vec::new(), STEPS);
    assert!(result.is_ok());
    assert_eq!(virtual_machine.pointer(), 2);
    assert_eq!(virtual_machine.memory().len(), 4);
}

/// Should failed moving pointer one place to the right when at the right edge and cannot extend.
#[test]
fn unsuccessfully_move_pointer_right() {
    let program = Program::new("", ">");
    let mut virtual_machine: VM<u8> = VM::new(2, false, &program);
    virtual_machine.set_pointer(1);
    let result = virtual_machine.interpret(&mut no_input(), &mut Vec::new(), STEPS);

    match result {
        Err(BrainfuckRuntimeError::CannotMoveRightError(file_path, ins)) => {
            assert_eq!(file_path.as_str(), "");
            assert_eq!(ins, Instruction::new(1, 1, RawInstruction::MoveRight));
        }
        _ => panic!("Unrecognized error type"),
    }

    assert_eq!(virtual_machine.pointer(), 1);
}

/// Should increment cell value by one.
#[test]
fn increase_by_one() {
    let program = Program::new("", "+");
    let mut virtual_machine: VM<u8> = VM::new(2, false, &program);
    let result = virtual_machine.interpret(&mut no_input(), &mut Vec::new(), STEPS);

    assert!(result.is_ok());
    assert_eq!(virtual_machine.memory()[0], 1_u8);
}

/// Should go beyond upper bound if cell value is already max.
#[test]
fn go_beyond_upper_bound() {
    let program = Program::new("", "+");
    let mut virtual_machine: VM<u8> = VM::new(2, false, &program);
    virtual_machine.set_cell(0, 255_u8);
    let result = virtual_machine.interpret(&mut no_input(), &mut Vec::new(), STEPS);

    assert!(result.is_ok());
    assert_eq!(virtual_machine.memory()[0], 0_u8);
}

/// Should go beyond lower bound if cell value is already min.
#[test]
fn go_beyond_lower_bound() {
    let program = Program::new("", "-");
    let mut virtual_machine: VM<u8> = VM::new(2, false, &program);
    virtual_machine.set_cell(0, 0_u8);
    let result = virtual_machine.interpret(&mut no_input(), &mut Vec::new(), STEPS);

    assert!(result.is_ok());
    assert_eq!(virtual_machine.memory()[0], 255_u8);
}

/// Should decrement cell value by one.
#[test]
fn decrease_by_one() {
    let program = Program::new("", "-");
    let mut virtual_machine: VM<u8> = VM::new(2, false, &program);
    virtual_machine.set_cell(0, 1);
    let result = virtual_machine.interpret(&mut no_input(), &mut Vec::new(), STEPS);

    assert!(result.is_ok());
    assert_eq!(virtual_machine.memory()[0], 0_u8);
}

/// Should successfully set a memory cell to a u8 value.
#[test]
fn successfully_set_memory_cell() {
    let program = Program::new("", ",");
    let mut virtual_machine: VM<u8> = VM::new(2, false, &program);
    let mut read_source = ByteSource::new(vec![65]);
    let result = virtual_machine.interpret(&mut read_source, &mut Vec::new(), STEPS);

    assert!(result.is_ok());
    assert_eq!(virtual_machine.memory()[0], 65);
}

/// Should fail due to Unexpected EOF error.
#[test]
fn set_memory_cell_failed_due_to_eof() {
    let program = Program::new("", ",");
    let mut virtual_machine: VM<u8> = VM::new(2, false, &program);
    let mut read_source = ByteSource::new(vec![]);
    let result = virtual_machine.interpret(&mut read_source, &mut Vec::new(), STEPS);

    match result {
        Err(BrainfuckRuntimeError::CannotReadInputError(io_err, file_path, ins)) => {
            assert!(matches!(io_err, IoFailure::UnexpectedEof));
            assert_eq!(file_path.as_str(), "");
            assert_eq!(ins, Instruction::new(1, 1, RawInstruction::Input));
        }
        _ => panic!("Unrecognized error type"),
    }

    assert_eq!(virtual_machine.memory()[0], 0);
}

/// Should successfully write a memory cell content to write destination.
#[test]
fn successfully_write_memory_cell_to_destination() {
    let program = Program::new("", ".");
    let mut virtual_machine: VM<u8> = VM::new(2, false, &program);
    virtual_machine.set_cell(0, 65);
    let mut write_destination: Vec<u8> = vec![];
    let result = virtual_machine.interpret(&mut no_input(), &mut write_destination, STEPS);

    assert!(result.is_ok());
    assert_eq!(write_destination, vec![65, b'\n']);
}

/// Should construct matching brackets.
#[test]
fn should_construct_matching_brackets() {
    let program = Program::new("", "[]");
    let virtual_machine: VM<u8> = VM::new(2, false, &program);

    let mut expected_open_to_close: HashMap<usize, usize> = HashMap::new();
    expected_open_to_close.insert(0, 1);
    let mut expected_close_to_open: HashMap<usize, usize> = HashMap::new();
    expected_close_to_open.insert(1, 0);

    assert_eq!(*virtual_machine.open_to_close(), expected_open_to_close);
    assert_eq!(*virtual_machine.close_to_open(), expected_close_to_open);
}

/// Should move program counter to the next instruction after end loop.
#[test]
fn should_move_program_counter_to_next_ins_after_end_loop() {
    let program = Program::new("", "[]");
    let mut virtual_machine: VM<u8> = VM::new(2, false, &program);
    let result = virtual_machine.interpret(&mut no_input(), &mut Vec::new(), STEPS);

    assert!(result.is_ok());
    assert_eq!(virtual_machine.program_counter(), 2);
}

/// Should move program counter to left.
#[test]
fn should_move_program_counter_to_left() {
    let program = Program::new("", "+[]");
    let mut virtual_machine: VM<u8> = VM::new(2, false, &program);
    let next = virtual_machine.increment().unwrap();
    virtual_machine.set_program_counter(next);
    let next = virtual_machine.begin_loop().unwrap();
    virtual_machine.set_program_counter(next);

    assert_eq!(virtual_machine.program_counter(), 2);
}

/// Should move program counter back to loop start plus 1.
#[test]
fn should_move_program_counter_back_to_loop_start_plus_1() {
    let program = Program::new("", "+[]");
    let mut virtual_machine: VM<u8> = VM::new(2, false, &program);
    let next = virtual_machine.increment().unwrap();
    virtual_machine.set_program_counter(next);
    let next = virtual_machine.begin_loop().unwrap();
    virtual_machine.set_program_counter(next);
    let next = virtual_machine.end_loop().unwrap();
    virtual_machine.set_program_counter(next);

    assert_eq!(virtual_machine.program_counter(), 2);
}

#[test]
fn three_increments_then_output() {
    let program = Program::new("", "+++.");
    assert!(program.validate().is_ok());
    for cells in [1, 2, 30000] {
        let mut machine: VM<u8> = VM::new(cells, false, &program);
        let mut output: Vec<u8> = Vec::new();
        let result = machine.interpret(&mut no_input(), &mut output, STEPS);
        assert!(result.is_ok());
        assert_eq!(output, vec![3, b'\n']);
    }
}

#[test]
fn input_is_echoed_to_output() {
    let program = Program::new("", ",.");
    let mut machine: VM<u8> = VM::new(1, false, &program);
    let mut input = ByteSource::new(vec![65]);
    let mut output: Vec<u8> = Vec::new();
    assert!(machine.interpret(&mut input, &mut output, STEPS).is_ok());
    assert_eq!(output, vec![65, b'\n']);
}

#[test]
fn empty_loop_is_skipped_at_once() {
    let program = Program::new("", "[]");
    let mut machine: VM<u8> = VM::new(1, false, &program);
    let mut writer = AutoNewlineWriter::new(Vec::new());
    assert_eq!(machine.program_counter(), 0);
    assert!(machine.step(&mut no_input(), &mut writer).is_ok());
    assert_eq!(machine.program_counter(), 2);
    assert_eq!(machine.pending(), Pending::Halted);
    assert_eq!(machine.memory()[0], 0);
    assert_eq!(writer.finish(), vec![b'\n']);
}

#[test]
fn clearing_loop_runs_exactly_once() {
    let program = Program::new("", "+[-]");
    let mut machine: VM<u8> = VM::new(1, false, &program);
    let mut writer = AutoNewlineWriter::new(Vec::new());
    let mut counters: Vec<usize> = vec![machine.program_counter()];
    let mut values: Vec<u8> = vec![machine.memory()[0]];
    while machine.pending() != Pending::Halted {
        assert!(machine.step(&mut no_input(), &mut writer).is_ok());
        counters.push(machine.program_counter());
        values.push(machine.memory()[0]);
    }
    assert_eq!(counters, vec![0, 1, 2, 3, 4]);
    assert_eq!(values, vec![0, 1, 1, 0, 0]);

    let mut machine: VM<u8> = VM::new(1, false, &program);
    assert!(machine.interpret(&mut no_input(), &mut Vec::new(), 4).is_ok());
    assert_eq!(machine.memory()[0], 0);
}

#[test]
fn step_limit_stops_a_program_that_does_not_end() {
    let program = Program::new("forever.bf", "+[]");
    let mut machine: VM<u8> = VM::new(1, false, &program);
    let mut output: Vec<u8> = Vec::new();
    match machine.interpret(&mut no_input(), &mut output, 1000) {
        Err(BrainfuckRuntimeError::StepLimitReachedError(file_path, ins)) => {
            assert_eq!(file_path.as_str(), "forever.bf");
            assert!(
                ins == Instruction::new(1, 2, RawInstruction::BeginLoop)
                    || ins == Instruction::new(1, 3, RawInstruction::EndLoop)
            );
        }
        _ => panic!("expected the step limit to be reached"),
    }
    assert_eq!(output, vec![b'\n']);
}

#[test]
fn step_limit_counts_instructions_exactly() {
    let program = Program::new("", "+++");
    let mut machine: VM<u8> = VM::new(1, false, &program);
    assert!(machine.interpret(&mut no_input(), &mut Vec::new(), 3).is_ok());
    assert_eq!(machine.memory()[0], 3);

    let mut machine: VM<u8> = VM::new(1, false, &program);
    match machine.interpret(&mut no_input(), &mut Vec::new(), 2) {
        Err(BrainfuckRuntimeError::StepLimitReachedError(_, ins)) => {
            assert_eq!(ins, Instruction::new(1, 3, RawInstruction::Increment));
        }
        _ => panic!("expected the step limit to be reached"),
    }
    assert_eq!(machine.memory()[0], 2);
    assert_eq!(machine.program_counter(), 2);
    assert!(machine.interpret(&mut no_input(), &mut Vec::new(), 1).is_ok());
    assert_eq!(machine.memory()[0], 3);
}

#[test]
fn growing_keeps_the_cells_and_adds_zeros() {
    let program = Program::new("", "+>++>+++");
    let mut machine: VM<u8> = VM::new(1, true, &program);
    assert!(machine.interpret(&mut no_input(), &mut Vec::new(), STEPS).is_ok());
    assert_eq!(machine.memory(), &[1, 2, 3, 0]);
    assert_eq!(machine.pointer(), 2);
    assert!(machine.can_extend());
}

#[test]
fn move_left_fails_at_the_first_cell_whatever_the_length() {
    let program = Program::new("left.bf", "\n  <");
    for cells in [1, 2, 17, 30000] {
        for can_extend in [false, true] {
            let mut machine: VM<u8> = VM::new(cells, can_extend, &program);
            match machine.move_left() {
                Err(BrainfuckRuntimeError::CannotMoveLeftError(file_path, ins)) => {
                    assert_eq!(file_path.as_str(), "left.bf");
                    assert_eq!(ins, Instruction::new(2, 3, RawInstruction::MoveLeft));
                }
                _ => panic!("expected a failure to move left"),
            }
            assert_eq!(machine.pointer(), 0);
            assert_eq!(machine.memory().len(), cells);
        }
    }
}

#[test]
fn move_right_fails_on_the_last_cell_of_a_fixed_memory() {
    let program = Program::new("right.bf", ">>>");
    let mut machine: VM<u8> = VM::new(3, false, &program);
    let mut output: Vec<u8> = Vec::new();
    match machine.interpret(&mut no_input(), &mut output, STEPS) {
        Err(BrainfuckRuntimeError::CannotMoveRightError(file_path, ins)) => {
            assert_eq!(file_path.as_str(), "right.bf");
            assert_eq!(ins, Instruction::new(1, 3, RawInstruction::MoveRight));
        }
        _ => panic!("expected a failure to move right"),
    }
    assert_eq!(machine.pointer(), 2);
    assert_eq!(machine.memory().len(), 3);
    assert_eq!(machine.program_counter(), 2);
    assert_eq!(output, vec![b'\n']);
}

#[test]
fn output_written_before_a_failure_stays() {
    let program = Program::new("", "+.<");
    let mut machine: VM<u8> = VM::new(1, false, &program);
    let mut output: Vec<u8> = vec![9];
    assert!(machine.interpret(&mut no_input(), &mut output, STEPS).is_err());
    assert_eq!(output, vec![9, 1, b'\n']);
}

#[test]
fn no_second_newline_after_a_printed_newline() {
    let program = Program::new("", "++++++++++.");
    let mut machine: VM<u8> = VM::new(1, false, &program);
    let mut output: Vec<u8> = Vec::new();
    assert!(machine.interpret(&mut no_input(), &mut output, STEPS).is_ok());
    assert_eq!(output, vec![b'\n']);
}

#[test]
fn resume_input_stores_the_byte_or_reports_the_failure() {
    let program = Program::new("in.bf", ",");
    let mut machine: VM<u8> = VM::new(1, false, &program);
    assert_eq!(machine.pending(), Pending::Input);
    match machine.resume_input(Err(IoFailure::Other("broken".to_string()))) {
        Err(BrainfuckRuntimeError::CannotReadInputError(IoFailure::Other(why), file_path, ins)) => {
            assert_eq!(why.as_str(), "broken");
            assert_eq!(file_path.as_str(), "in.bf");
            assert_eq!(ins, Instruction::new(1, 1, RawInstruction::Input));
        }
        _ => panic!("expected a read error"),
    }
    assert_eq!(machine.memory()[0], 0);
    assert_eq!(machine.resume_input(Ok(200)).unwrap(), 1);
    assert_eq!(machine.memory()[0], 200);
}

#[test]
fn resume_output_reports_a_failed_write() {
    let program = Program::new("out.bf", "+.");
    let mut machine: VM<u8> = VM::new(1, false, &program);
    let next = machine.increment().unwrap();
    machine.set_program_counter(next);
    assert_eq!(machine.pending(), Pending::Output(1));
    assert_eq!(machine.output_byte(), 1);
    match machine.resume_output(Err(IoFailure::Other("closed".to_string()))) {
        Err(BrainfuckRuntimeError::CannotWriteOutputError(IoFailure::Other(why), file_path, ins)) => {
            assert_eq!(why.as_str(), "closed");
            assert_eq!(file_path.as_str(), "out.bf");
            assert_eq!(ins, Instruction::new(1, 2, RawInstruction::Output));
        }
        _ => panic!("expected a write error"),
    }
    assert_eq!(machine.resume_output(Ok(())).unwrap(), 2);
}

#[test]
fn pending_tells_what_the_next_instruction_needs() {
    let program = Program::new("", "+,.");
    let mut machine: VM<u8> = VM::new(1, false, &program);
    assert_eq!(machine.pending(), Pending::Plain);
    machine.set_program_counter(1);
    assert_eq!(machine.pending(), Pending::Input);
    machine.set_program_counter(2);
    assert_eq!(machine.pending(), Pending::Output(0));
    machine.set_program_counter(3);
    assert_eq!(machine.pending(), Pending::Halted);
}

#[test]
fn nested_loops_jump_to_their_own_partners() {
    let program = Program::new("", "[[]][]");
    let machine: VM<u8> = VM::new(1, false, &program);
    let mut open_to_close: HashMap<usize, usize> = HashMap::new();
    open_to_close.insert(0, 3);
    open_to_close.insert(1, 2);
    open_to_close.insert(4, 5);
    let mut close_to_open: HashMap<usize, usize> = HashMap::new();
    close_to_open.insert(3, 0);
    close_to_open.insert(2, 1);
    close_to_open.insert(5, 4);
    assert_eq!(*machine.open_to_close(), open_to_close);
    assert_eq!(*machine.close_to_open(), close_to_open);
}

#[test]
fn multiplication_program_prints_the_product() {
    // 6 * 7 in the second cell, then printed
    let program = Program::new("", "++++++[>+++++++<-]>.");
    assert!(program.validate().is_ok());
    let mut machine: VM<u8> = VM::new(2, false, &program);
    let mut output: Vec<u8> = Vec::new();
    assert!(machine.interpret(&mut no_input(), &mut output, STEPS).is_ok());
    assert_eq!(output, vec![42, b'\n']);
    assert_eq!(machine.memory(), &[0, 42]);
}

#[test]
fn a_program_can_be_run_again_on_a_fresh_machine() {
    let program = Program::new("", ",+.");
    assert!(program.validate().is_ok());
    for byte in [0_u8, 41, 255] {
        let mut machine: VM<u8> = VM::new(1, false, &program);
        let mut input = ByteSource::new(vec![byte]);
        let mut output: Vec<u8> = Vec::new();
        assert!(machine.interpret(&mut input, &mut output, STEPS).is_ok());
        let expected = byte.wrapping_add(1);
        if expected == b'\n' {
            assert_eq!(output, vec![expected]);
        } else {
            assert_eq!(output, vec![expected, b'\n']);
        }
    }
}

#[test]
fn wraparound_round_trips_for_every_byte() {
    for value in 0..=255_u8 {
        let mut cell = value;
        CellKind::increment(&mut cell);
        assert_eq!(cell, value.wrapping_add(1));
        CellKind::decrement(&mut cell);
        assert_eq!(cell, value);
        CellKind::decrement(&mut cell);
        assert_eq!(cell, value.wrapping_sub(1));
        CellKind::increment(&mut cell);
        assert_eq!(cell, value);
    }
    let mut cell = 255_u8;
    CellKind::increment(&mut cell);
    assert_eq!(cell, 0);
    CellKind::decrement(&mut cell);
    assert_eq!(cell, 255);
}

#[test]
fn wider_cells_wrap_at_their_own_maximum() {
    let mut cell = 65535_u16;
    CellKind::increment(&mut cell);
    assert_eq!(cell, 0);
    CellKind::decrement(&mut cell);
    assert_eq!(cell, 65535);
    let mut cell = 255_u16;
    CellKind::increment(&mut cell);
    assert_eq!(cell, 256);
    assert_eq!(CellKind::get_value(&cell), 0);
    CellKind::set_value(&mut cell, 200);
    assert_eq!(cell, 200);
    assert_eq!(CellKind::get_value(&cell), 200);
    assert!(!CellKind::is_zero(&cell));
    assert_eq!(<u16 as CellKind>::zero(), 0);
    assert_eq!(<u16 as CellKind>::one(), 1);
    assert_eq!(<u16 as CellKind>::max(), 65535);
    assert_eq!(<u16 as CellKind>::min(), 0);

    let program = Program::new("", "-.");
    let mut machine: VM<u16> = VM::new(1, false, &program);
    let mut output: Vec<u8> = Vec::new();
    assert!(machine.interpret(&mut no_input(), &mut output, STEPS).is_ok());
    assert_eq!(machine.memory()[0], 65535);
    assert_eq!(output, vec![255, b'\n']);
}

#[test]
fn byte_cells_know_their_constants() {
    assert_eq!(<u8 as CellKind>::zero(), 0);
    assert_eq!(<u8 as CellKind>::one(), 1);
    assert_eq!(<u8 as CellKind>::max(), 255);
    assert_eq!(<u8 as CellKind>::min(), 0);
    let mut cell = 0_u8;
    assert!(CellKind::is_zero(&cell));
    CellKind::set_value(&mut cell, 65);
    assert_eq!(CellKind::get_value(&cell), 65);
}

#[test]
fn more_steps_do_not_change_a_run_that_ends() {
    let program = Program::new("", "++[>,.<-]");
    let mut outputs: Vec<Vec<u8>> = Vec::new();
    for limit in [15, 16, 1000, u64::MAX] {
        let mut machine: VM<u8> = VM::new(2, false, &program);
        let mut input = ByteSource::new(vec![b'h', b'i', b'!']);
        let mut output: Vec<u8> = Vec::new();
        assert!(machine.interpret(&mut input, &mut output, limit).is_ok());
        assert_eq!(machine.program_counter(), 9);
        assert!(matches!(input.read_byte(), Ok(b'!')));
        outputs.push(output);
    }
    for output in outputs {
        assert_eq!(output, vec![b'h', b'i', b'\n']);
    }
    let mut machine: VM<u8> = VM::new(2, false, &program);
    let mut input = ByteSource::new(vec![b'h', b'i', b'!']);
    assert!(machine.interpret(&mut input, &mut Vec::new(), 14).is_err());
}
