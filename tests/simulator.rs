use hm_asm_simulator::generate::{generate_binary, AsmError};
use hm_asm_simulator::instruction::{
    Argument, ArgumentInstruction, BinaryInstruction, ConstantArgumentInstruction, Instruction,
    JumpArgument, Label, MemoryLocationInstruction, NoArgumentInstruction,
};
use hm_asm_simulator::labels::{insert_label, resolve_labels, str_eq, LabelTable};
use hm_asm_simulator::simulate::{simulate, simulate_binary, Machine, OpcodeInfo, State, StateRegister};

fn nop() -> Instruction<'static> {
    Instruction::NoArgumentInstruction(NoArgumentInstruction::NOP, None)
}

fn labelled_nop<'a>(name: &'a str, location: u8) -> Instruction<'a> {
    Instruction::NoArgumentInstruction(NoArgumentInstruction::NOP, Some(Label { name, location }))
}

fn lda(a: Argument) -> Instruction<'static> {
    Instruction::ArgumentInstruction(ArgumentInstruction::LDA(a), None)
}

fn add(a: Argument) -> Instruction<'static> {
    Instruction::ArgumentInstruction(ArgumentInstruction::ADD(a), None)
}

fn sub(a: Argument) -> Instruction<'static> {
    Instruction::ArgumentInstruction(ArgumentInstruction::SUB(a), None)
}

fn sta(a: u8) -> Instruction<'static> {
    Instruction::MemoryLocationInstruction(MemoryLocationInstruction::STA(a), None)
}

fn branch(b: ConstantArgumentInstruction) -> Instruction<'static> {
    Instruction::ConstantArgumentInstruction(b, None)
}

fn jmp(t: u8) -> Instruction<'static> {
    Instruction::Jump(JumpArgument::Location(t), None)
}

fn jmp_label(name: &str) -> Instruction<'_> {
    Instruction::Jump(JumpArgument::Label(name), None)
}

fn flags(carry: bool, zero: bool, negative: bool) -> StateRegister {
    StateRegister { carry, zero, negative }
}

fn run(program: Vec<Instruction<'_>>, steps: usize) -> Vec<State> {
    simulate(program, steps).expect("program is valid")
}

#[test]
fn load_add_store_end_to_end() {
    let states = run(
        vec![lda(Argument::Constant(3)), add(Argument::Constant(2)), sta(5)],
        6,
    );
    assert_eq!(states.len(), 12);
    assert_eq!(
        states[0],
        State {
            step: 0,
            clk: false,
            pc: 0,
            addr_bus: 0,
            data_bus: 3,
            ir: 0,
            dr: 0,
            akku: 0,
            sr: flags(false, false, false),
            opcode_info: None,
        }
    );
    assert_eq!(
        states[1],
        State {
            step: 0,
            clk: true,
            pc: 0,
            addr_bus: 3,
            data_bus: 0,
            ir: 1,
            dr: 3,
            akku: 0,
            sr: flags(false, true, false),
            opcode_info: None,
        }
    );
    // the load is committed at the top of step 1
    assert_eq!(states[2].akku, 3);
    assert_eq!(states[3].akku, 3);
    assert_eq!((states[3].ir, states[3].dr), (4, 2));
    // the addition is committed at the top of step 2
    assert_eq!(states[4].akku, 5);
    assert_eq!(
        states[5],
        State {
            step: 2,
            clk: true,
            pc: 2,
            addr_bus: 5,
            data_bus: 0,
            ir: 3,
            dr: 5,
            akku: 5,
            sr: flags(false, false, false),
            opcode_info: Some(OpcodeInfo { addr: 5, content: 0 }),
        }
    );
    // past the end of the program every slot decodes as NOP
    assert_eq!((states[7].ir, states[7].dr, states[7].addr_bus), (0, 0, 0));
    assert_eq!(states[10].pc, 5);
    assert_eq!(states[10].data_bus, 5);
    for (i, s) in states.iter().enumerate() {
        assert_eq!(s.step, i / 2);
        assert_eq!(s.clk, i % 2 == 1);
    }
}

#[test]
fn pending_values_commit_one_step_later() {
    let program = generate_binary(vec![
        lda(Argument::Constant(3)),
        add(Argument::Constant(2)),
        sta(5),
    ])
    .unwrap();
    let mut machine = Machine::new(&program);
    assert_eq!(machine.memory(), program.data_memory);
    machine.step(&program);
    assert_eq!((machine.pc(), machine.akku()), (1, 3));
    machine.step(&program);
    assert_eq!((machine.pc(), machine.akku()), (2, 5));
    assert_eq!(machine.memory()[5], 0);
    let (fetch, execute) = machine.step(&program);
    assert_eq!(fetch.opcode_info, Some(OpcodeInfo { addr: 5, content: 0 }));
    assert_eq!(execute.data_bus, 0);
    assert_eq!(machine.memory()[5], 5);
    assert_eq!(machine.step_count(), 3);
}

#[test]
fn store_is_visible_from_the_next_step() {
    // STA (3) writes 7 over the operand of the instruction in slot 3, then ADD (3) reads it
    let states = run(
        vec![
            lda(Argument::Constant(7)),
            sta(3),
            add(Argument::MemoryLocation(3)),
            nop(),
        ],
        4,
    );
    assert_eq!(states[3].opcode_info, Some(OpcodeInfo { addr: 3, content: 0 }));
    assert_eq!(states[3].data_bus, 0);
    assert_eq!(states[4].opcode_info, Some(OpcodeInfo { addr: 3, content: 7 }));
    assert_eq!(states[5].data_bus, 7);
    assert_eq!(states[6].akku, 14);
    assert_eq!(states[6].data_bus, 7);
}

#[test]
fn jump_overrides_address_bus_in_same_step() {
    let states = run(vec![jmp(2), nop(), lda(Argument::Constant(7))], 3);
    assert_eq!(states[0].addr_bus, 0);
    assert_eq!(states[1].addr_bus, 2);
    assert_eq!(states[1].data_bus, 7);
    assert_eq!((states[1].ir, states[1].dr), (8, 2));
    assert_eq!(states[1].pc, 0);
    assert_eq!(states[2].pc, 2);
    assert_eq!(states[4].akku, 7);
}

#[test]
fn label_on_fourth_instruction_resolves_to_three() {
    let program = vec![jmp_label("L"), nop(), nop(), labelled_nop("L", 3)];
    let table = resolve_labels(&program);
    assert_eq!(table.lookup("L"), Some(3));
    let image = generate_binary(program.clone()).unwrap();
    assert_eq!(image.program_memory[0], 8);
    assert_eq!(image.data_memory[0], 3);
    let states = run(program, 2);
    assert_eq!(states[1].addr_bus, 3);
    assert_eq!(states[2].pc, 3);
}

#[test]
fn oversized_program_is_rejected() {
    let program: Vec<Instruction> = (0..17).map(|_| nop()).collect();
    assert_eq!(simulate(program.clone(), 4), Err(AsmError::ProgramTooLarge));
    assert_eq!(generate_binary(program), Err(AsmError::ProgramTooLarge));
    let largest: Vec<Instruction> = (0..16).map(|_| nop()).collect();
    assert_eq!(simulate(largest, 1).unwrap().len(), 2);
}

#[test]
fn oversized_program_with_missing_label_reports_size() {
    let mut program: Vec<Instruction> = (0..16).map(|_| nop()).collect();
    program.push(jmp_label("nowhere"));
    assert_eq!(simulate(program, 1), Err(AsmError::ProgramTooLarge));
}

#[test]
fn unresolved_label_is_rejected() {
    assert_eq!(
        simulate(vec![jmp_label("missing")], 3),
        Err(AsmError::UnresolvedLabel("missing"))
    );
    assert_eq!(
        generate_binary(vec![nop(), jmp_label("missing")]),
        Err(AsmError::UnresolvedLabel("missing"))
    );
}

#[test]
fn first_unresolved_label_is_reported() {
    let program = vec![labelled_nop("a", 0), jmp_label("b"), jmp_label("a"), jmp_label("c")];
    assert_eq!(generate_binary(program), Err(AsmError::UnresolvedLabel("b")));
}

#[test]
fn duplicate_label_last_one_wins() {
    let program = vec![labelled_nop("x", 0), nop(), labelled_nop("x", 2), jmp_label("x")];
    let image = generate_binary(program).unwrap();
    assert_eq!(image.data_memory[3], 2);
    let mut table = LabelTable::new();
    insert_label(&mut table, &Some(Label { name: "y", location: 4 }));
    insert_label(&mut table, &None);
    insert_label(&mut table, &Some(Label { name: "y", location: 9 }));
    assert_eq!(table.lookup("y"), Some(9));
    assert_eq!(table.lookup("z"), None);
    assert_eq!(table.lookup("yy"), None);
}

#[test]
fn encoding_table() {
    let cases: Vec<(Instruction, u8, u8)> = vec![
        (nop(), 0, 0),
        (lda(Argument::Constant(9)), 1, 9),
        (lda(Argument::MemoryLocation(4)), 2, 4),
        (sta(6), 3, 6),
        (add(Argument::Constant(1)), 4, 1),
        (add(Argument::MemoryLocation(2)), 5, 2),
        (sub(Argument::Constant(3)), 6, 3),
        (sub(Argument::MemoryLocation(12)), 7, 12),
        (jmp(5), 8, 5),
        (branch(ConstantArgumentInstruction::BRZ(1)), 9, 1),
        (branch(ConstantArgumentInstruction::BRC(2)), 10, 2),
        (branch(ConstantArgumentInstruction::BRN(3)), 11, 3),
    ];
    let program: Vec<Instruction> = cases.iter().map(|c| c.0).collect();
    let image = generate_binary(program).unwrap();
    for (i, (_, opcode, argument)) in cases.iter().enumerate() {
        assert_eq!(image.program_memory[i], *opcode);
        assert_eq!(image.data_memory[i], *argument);
    }
    for i in cases.len()..16 {
        assert_eq!((image.program_memory[i], image.data_memory[i]), (0, 0));
    }
    let b: BinaryInstruction = ArgumentInstruction::SUB(Argument::MemoryLocation(4)).into();
    assert_eq!(b, BinaryInstruction { opcode: 7, argument: 4 });
    let b: BinaryInstruction = MemoryLocationInstruction::STA(11).into();
    assert_eq!(b, BinaryInstruction { opcode: 3, argument: 11 });
    let b = BinaryInstruction::from(ConstantArgumentInstruction::BRC(2));
    assert_eq!(b, BinaryInstruction { opcode: 10, argument: 2 });
    let b = BinaryInstruction::from(NoArgumentInstruction::NOP);
    assert_eq!(b, BinaryInstruction { opcode: 0, argument: 0 });
}

#[test]
fn registers_stay_four_bits_wide() {
    let states = run(
        vec![
            add(Argument::Constant(15)),
            add(Argument::Constant(15)),
            branch(ConstantArgumentInstruction::BRC(15)),
            sub(Argument::Constant(15)),
            jmp(0),
        ],
        40,
    );
    for s in states.iter() {
        assert!(s.pc < 16);
        assert!(s.akku < 16);
    }
    // 15 + 15 = 30 commits as 14
    assert_eq!(states[2].akku, 15);
    assert_eq!(states[4].akku, 14);
}

#[test]
fn branch_wraps_program_counter() {
    // 8 has bit 3 set, so BRN at pc 1 jumps to 1 + 15 = 16, which commits as 0
    let states = run(
        vec![lda(Argument::Constant(8)), branch(ConstantArgumentInstruction::BRN(15))],
        3,
    );
    assert_eq!(states[3].sr, flags(false, false, true));
    assert_eq!(states[4].pc, 0);
}

#[test]
fn branch_not_taken_advances() {
    let states = run(
        vec![lda(Argument::Constant(1)), branch(ConstantArgumentInstruction::BRZ(5)), nop()],
        3,
    );
    assert!(!states[3].sr.zero);
    assert_eq!(states[4].pc, 2);
    let states = run(
        vec![lda(Argument::Constant(0)), branch(ConstantArgumentInstruction::BRZ(5)), nop()],
        3,
    );
    assert!(states[3].sr.zero);
    assert_eq!(states[4].pc, 6);
}

#[test]
fn prefix_of_longer_run() {
    let program = vec![
        lda(Argument::Constant(9)),
        sta(12),
        add(Argument::MemoryLocation(12)),
        branch(ConstantArgumentInstruction::BRC(2)),
        sub(Argument::Constant(1)),
        jmp(1),
    ];
    let short = run(program.clone(), 7);
    let long = run(program, 20);
    assert_eq!(short.len(), 14);
    assert_eq!(long.len(), 40);
    assert_eq!(short[..], long[..14]);
}

#[test]
fn carry_follows_accumulator_changes() {
    let states = run(
        vec![
            lda(Argument::Constant(15)),
            add(Argument::Constant(1)),
            nop(),
            sta(9),
            lda(Argument::Constant(0)),
            lda(Argument::Constant(2)),
            nop(),
        ],
        7,
    );
    let carry: Vec<bool> = (0..7).map(|k| states[2 * k + 1].sr.carry).collect();
    // 15 + 1 = 16 sets the carry; NOP, STA and a load of the unchanged 0 keep it
    assert_eq!(carry, vec![false, false, true, true, true, true, false]);
    assert_eq!(states[5].akku, 0);
    assert!(states[5].sr.zero);
}

#[test]
fn subtraction_is_twos_complement() {
    let states = run(
        vec![
            lda(Argument::Constant(5)),
            sub(Argument::Constant(3)),
            sub(Argument::Constant(4)),
            sub(Argument::Constant(0)),
            nop(),
        ],
        5,
    );
    // 5 + 12 + 1 = 18: accumulator 2, carry set
    assert_eq!(states[4].akku, 2);
    assert!(states[5].sr.carry);
    // 2 + 11 + 1 = 14: no carry, negative
    assert_eq!(states[6].akku, 14);
    assert_eq!(states[7].sr, flags(false, false, true));
    // 14 + 15 + 1 = 30: same accumulator, carry set again
    assert_eq!(states[8].akku, 14);
    assert_eq!(states[9].sr, flags(true, false, true));
}

#[test]
fn zero_flag_matches_accumulator() {
    let states = run(
        vec![
            lda(Argument::Constant(2)),
            sub(Argument::Constant(1)),
            sub(Argument::Constant(1)),
            sub(Argument::Constant(1)),
            add(Argument::Constant(1)),
            jmp(1),
        ],
        30,
    );
    for s in states.iter().filter(|s| s.clk) {
        assert_eq!(s.sr.zero, s.akku == 0);
    }
    assert!(states.iter().any(|s| s.clk && s.sr.zero));
}

#[test]
fn memory_operands_read_data_plane() {
    // the operand word of slot 2 (the SUB's 4) doubles as data
    let states = run(
        vec![
            lda(Argument::MemoryLocation(2)),
            add(Argument::MemoryLocation(2)),
            sub(Argument::Constant(4)),
        ],
        3,
    );
    assert_eq!(states[1].opcode_info, Some(OpcodeInfo { addr: 2, content: 4 }));
    assert_eq!(states[2].akku, 4);
    assert_eq!(states[4].akku, 8);
}

#[test]
fn empty_program_and_zero_steps() {
    assert_eq!(run(vec![], 0).len(), 0);
    let states = run(vec![], 3);
    assert_eq!(states.len(), 6);
    assert_eq!(states[5].pc, 2);
    assert!(states.iter().all(|s| s.akku == 0 && s.opcode_info.is_none()));
}

#[test]
fn binary_image_can_be_run_directly() {
    let image = generate_binary(vec![lda(Argument::Constant(6)), sta(0)]).unwrap();
    let states = simulate_binary(&image, 3);
    assert_eq!(states, run(vec![lda(Argument::Constant(6)), sta(0)], 3));
    assert_eq!(states[5].dr, 0);
    assert_eq!(states[5].data_bus, 6);
}

#[test]
fn string_equality() {
    assert!(str_eq("loop", "loop"));
    assert!(!str_eq("loop", "loops"));
    assert!(!str_eq("loop", "lOop"));
    assert!(str_eq("", ""));
    assert!(str_eq("ärger", "ärger"));
}
