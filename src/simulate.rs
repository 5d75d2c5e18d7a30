use vstd::prelude::*;

use crate::generate::{
    code_image, data_image, encode_error, generate_binary, AsmError, Program, MAX_PROGRAM_LEN,
};
use crate::instruction::{
    Instruction, JumpArgument, Label, OP_ADD_CONST, OP_ADD_MEM, OP_BRC, OP_BRN, OP_BRZ, OP_JMP, OP_LDA_CONST,
    OP_LDA_MEM, OP_STA, OP_SUB_CONST, OP_SUB_MEM,
};
use crate::labels::{binding, labels_of};

verus! {

/// The status register: carry, zero and negative flags.
#[derive(Copy, Clone, Debug, PartialEq, Eq)]
pub struct StateRegister {
    pub carry: bool,
    pub zero: bool,
    pub negative: bool,
}

/// The memory word that an instruction reads or writes, for display.
#[derive(Copy, Clone, Debug, PartialEq, Eq)]
pub struct OpcodeInfo {
    pub addr: u8,
    pub content: u8,
}

/// A snapshot of buses and registers at one half of a clock step.
#[derive(Copy, Clone, Debug, PartialEq, Eq)]
pub struct State {
    pub step: usize,
    pub clk: bool,
    pub pc: u8,
    pub addr_bus: u8,
    pub data_bus: u8,
    /// Instruction register: the latched opcode.
    pub ir: u8,
    /// Data register: the latched operand.
    pub dr: u8,
    pub akku: u8,
    pub sr: StateRegister,
    pub opcode_info: Option<OpcodeInfo>,
}

/// Mathematical model of the engine between two steps, after the previous
/// step's results were committed.
pub struct MachineView {
    pub step: nat,
    pub pc: u8,
    pub akku: u8,
    pub ir: u8,
    pub dr: u8,
    pub sr: StateRegister,
    /// The carry that the next execute half-cycle shows.
    pub carry: bool,
    pub memory: Seq<u8>,
}

/// An image that the engine can run: sixteen opcodes and sixteen 4-bit operands.
pub open spec fn image_wf(code: Seq<u8>, operands: Seq<u8>) -> bool {
    &&& code.len() == 16
    &&& operands.len() == 16
    &&& forall|k: int| 0 <= k < 16 ==> #[trigger] operands[k] < 16
}

impl MachineView {
    /// Program counter, accumulator and every memory word are 4-bit values.
    pub open spec fn wf(self) -> bool {
        &&& self.pc < 16
        &&& self.akku < 16
        &&& self.memory.len() == 16
        &&& forall|k: int| 0 <= k < 16 ==> #[trigger] self.memory[k] < 16
    }
}

pub open spec fn initial_machine(operands: Seq<u8>) -> MachineView {
    MachineView {
        step: 0,
        pc: 0,
        akku: 0,
        ir: 0,
        dr: 0,
        sr: StateRegister { carry: false, zero: false, negative: false },
        carry: false,
        memory: operands,
    }
}

pub open spec fn reads_memory(op: u8) -> bool {
    op == OP_LDA_MEM || op == OP_ADD_MEM || op == OP_SUB_MEM
}

pub open spec fn loads_accumulator(op: u8) -> bool {
    op == OP_LDA_CONST || op == OP_LDA_MEM
}

pub open spec fn adds(op: u8) -> bool {
    op == OP_ADD_CONST || op == OP_ADD_MEM
}

pub open spec fn subtracts(op: u8) -> bool {
    op == OP_SUB_CONST || op == OP_SUB_MEM
}

/// LDA, ADD and SUB: the instructions that compute a new accumulator.
pub open spec fn changes_accumulator(op: u8) -> bool {
    loads_accumulator(op) || adds(op) || subtracts(op)
}

/// The value an LDA, ADD or SUB works with: the memory word or the constant.
pub open spec fn operand_value(op: u8, arg: u8, memory: Seq<u8>) -> u8 {
    if reads_memory(op) {
        memory[arg as int]
    } else {
        arg
    }
}

/// The accumulator an instruction computes, before reduction to 4 bits.
/// Subtraction adds the 4-bit complement of the operand plus one.
pub open spec fn pending_akku(op: u8, arg: u8, m: MachineView) -> u8 {
    let v = operand_value(op, arg, m.memory);
    if loads_accumulator(op) {
        v
    } else if adds(op) {
        (m.akku + v) as u8
    } else if subtracts(op) {
        (m.akku + (15 - v) + 1) as u8
    } else {
        m.akku
    }
}

/// The status register shown in the execute half-cycle.
pub open spec fn execute_status(m: MachineView) -> StateRegister {
    StateRegister { carry: m.carry, zero: m.akku == 0, negative: m.akku & 8 != 0 }
}

pub open spec fn branch_taken(op: u8, sr: StateRegister) -> bool {
    (op == OP_BRZ && sr.zero) || (op == OP_BRC && sr.carry) || (op == OP_BRN && sr.negative)
}

/// The program counter an instruction computes, before reduction to 4 bits.
pub open spec fn pending_pc(op: u8, arg: u8, m: MachineView) -> u8 {
    if op == OP_JMP {
        arg
    } else if branch_taken(op, execute_status(m)) {
        (m.pc + arg) as u8
    } else {
        (m.pc + 1) as u8
    }
}

pub open spec fn opcode_info_of(op: u8, arg: u8, memory: Seq<u8>) -> Option<OpcodeInfo> {
    if op == OP_STA || reads_memory(op) {
        Some(OpcodeInfo { addr: arg, content: memory[arg as int] })
    } else {
        None
    }
}

/// The snapshot of the fetch half-cycle (clk low): the registers still hold
/// the previous instruction.
pub open spec fn fetch_state(code: Seq<u8>, operands: Seq<u8>, m: MachineView) -> State {
    let op = code[m.pc as int];
    let arg = operands[m.pc as int];
    State {
        step: m.step as usize,
        clk: false,
        pc: m.pc,
        addr_bus: m.pc,
        data_bus: m.memory[m.pc as int],
        ir: m.ir,
        dr: m.dr,
        akku: m.akku,
        sr: m.sr,
        opcode_info: opcode_info_of(op, arg, m.memory),
    }
}

/// The snapshot of the execute half-cycle (clk high): the instruction is
/// latched and the address bus carries its operand. A jump's operand is its
/// resolved target, so the bus shows the target in the same step.
pub open spec fn execute_state(code: Seq<u8>, operands: Seq<u8>, m: MachineView) -> State {
    let op = code[m.pc as int];
    let arg = operands[m.pc as int];
    State {
        step: m.step as usize,
        clk: true,
        pc: m.pc,
        addr_bus: arg,
        data_bus: m.memory[arg as int],
        ir: op,
        dr: arg,
        akku: m.akku,
        sr: execute_status(m),
        opcode_info: opcode_info_of(op, arg, m.memory),
    }
}

/// One step followed by the commit of its results: pending program counter
/// and accumulator reduced modulo 16, carry recomputed from bit 4 of the
/// pending accumulator when it differs from the current one, and a store's
/// write applied.
pub open spec fn step_machine(code: Seq<u8>, operands: Seq<u8>, m: MachineView) -> MachineView {
    let op = code[m.pc as int];
    let arg = operands[m.pc as int];
    let raw = pending_akku(op, arg, m);
    MachineView {
        step: m.step + 1,
        pc: (pending_pc(op, arg, m) % 16) as u8,
        akku: (raw % 16) as u8,
        ir: op,
        dr: arg,
        sr: execute_status(m),
        carry: if raw != m.akku {
            raw & 16 != 0
        } else {
            m.carry
        },
        memory: if op == OP_STA {
            m.memory.update(arg as int, m.akku)
        } else {
            m.memory
        },
    }
}

/// The engine's state after `k` steps.
pub open spec fn machine_at(code: Seq<u8>, operands: Seq<u8>, k: nat) -> MachineView
    decreases k,
{
    if k == 0 {
        initial_machine(operands)
    } else {
        step_machine(code, operands, machine_at(code, operands, (k - 1) as nat))
    }
}

/// The snapshots of the first `n` steps, two per step.
pub open spec fn trace(code: Seq<u8>, operands: Seq<u8>, n: nat) -> Seq<State>
    decreases n,
{
    if n == 0 {
        Seq::empty()
    } else {
        let m = machine_at(code, operands, (n - 1) as nat);
        trace(code, operands, (n - 1) as nat).push(fetch_state(code, operands, m)).push(
            execute_state(code, operands, m),
        )
    }
}

/// The engine: registers, latched flags and the 16-word data memory.
pub struct Machine {
    step: usize,
    pc: u8,
    akku: u8,
    ir: u8,
    dr: u8,
    sr: StateRegister,
    carry: bool,
    memory: [u8; 16],
}

impl View for Machine {
    type V = MachineView;

    closed spec fn view(&self) -> MachineView {
        MachineView {
            step: self.step as nat,
            pc: self.pc,
            akku: self.akku,
            ir: self.ir,
            dr: self.dr,
            sr: self.sr,
            carry: self.carry,
            memory: self.memory@,
        }
    }
}

impl Machine {
    /// A machine at step 0 whose memory is the program's operand plane.
    pub fn new(program: &Program) -> (r: Machine)
        ensures
            r@ == initial_machine(program.data_memory@),
    {
        Machine {
            step: 0,
            pc: 0,
            akku: 0,
            ir: 0,
            dr: 0,
            sr: StateRegister { carry: false, zero: false, negative: false },
            carry: false,
            memory: program.data_memory,
        }
    }

    pub fn step_count(&self) -> (r: usize)
        ensures
            r == self@.step,
    {
        self.step
    }

    pub fn pc(&self) -> (r: u8)
        ensures
            r == self@.pc,
    {
        self.pc
    }

    pub fn akku(&self) -> (r: u8)
        ensures
            r == self@.akku,
    {
        self.akku
    }

    pub fn carry(&self) -> (r: bool)
        ensures
            r == self@.carry,
    {
        self.carry
    }

    pub fn memory(&self) -> (r: [u8; 16])
        ensures
            r@ == self@.memory,
    {
        self.memory
    }

    /// Runs one step of `program`: returns the fetch and execute snapshots
    /// and commits the step's results.
    pub fn step(&mut self, program: &Program) -> (r: (State, State))
        requires
            image_wf(program.program_memory@, program.data_memory@),
            old(self)@.wf(),
            old(self)@.step < usize::MAX,
        ensures
            r.0 == fetch_state(program.program_memory@, program.data_memory@, old(self)@),
            r.1 == execute_state(program.program_memory@, program.data_memory@, old(self)@),
            final(self)@ == step_machine(
                program.program_memory@,
                program.data_memory@,
                old(self)@,
            ),
            final(self)@.wf(),
    {
        let ghost m = self@;
        let pc = self.pc;
        let op = program.program_memory[pc as usize];
        let arg = program.data_memory[pc as usize];
        assert(arg < 16);
        let opcode_info = if op == OP_STA || op == OP_LDA_MEM || op == OP_ADD_MEM || op
            == OP_SUB_MEM {
            Some(OpcodeInfo { addr: arg, content: self.memory[arg as usize] })
        } else {
            None
        };
        let fetch = State {
            step: self.step,
            clk: false,
            pc,
            addr_bus: pc,
            data_bus: self.memory[pc as usize],
            ir: self.ir,
            dr: self.dr,
            akku: self.akku,
            sr: self.sr,
            opcode_info,
        };

        let sr = StateRegister {
            carry: self.carry,
            zero: self.akku == 0,
            negative: self.akku & 8 != 0,
        };
        let execute = State {
            step: self.step,
            clk: true,
            pc,
            addr_bus: arg,
            data_bus: self.memory[arg as usize],
            ir: op,
            dr: arg,
            akku: self.akku,
            sr,
            opcode_info,
        };

        let value = if op == OP_LDA_MEM || op == OP_ADD_MEM || op == OP_SUB_MEM {
            self.memory[arg as usize]
        } else {
            arg
        };
        assert(value < 16);
        let next_akku: u8 = if op == OP_LDA_CONST || op == OP_LDA_MEM {
            value
        } else if op == OP_ADD_CONST || op == OP_ADD_MEM {
            self.akku + value
        } else if op == OP_SUB_CONST || op == OP_SUB_MEM {
            assert(value ^ 15 == 15 - value) by (bit_vector)
                requires
                    value < 16,
            ;
            self.akku + (value ^ 15) + 1
        } else {
            self.akku
        };
        let next_pc: u8 = if op == OP_JMP {
            arg
        } else if (op == OP_BRZ && sr.zero) || (op == OP_BRC && sr.carry) || (op == OP_BRN
            && sr.negative) {
            pc + arg
        } else {
            pc + 1
        };

        if next_akku != self.akku {
            self.carry = next_akku & 16 != 0;
        }
        if op == OP_STA {
            self.memory[arg as usize] = self.akku;
        }
        self.pc = next_pc % 16;
        self.akku = next_akku % 16;
        self.ir = op;
        self.dr = arg;
        self.sr = sr;
        self.step = self.step + 1;
        assert(self@.memory =~= step_machine(
            program.program_memory@,
            program.data_memory@,
            m,
        ).memory);
        (fetch, execute)
    }
}

/// Locations of the labels of a program whose slots are all 4-bit wide fit in 4 bits.
proof fn lemma_label_locations<'a>(s: Seq<Instruction<'a>>)
    requires
        forall|k: int| 0 <= k < s.len() ==> #[trigger] s[k].is_nibble_wide(),
    ensures
        forall|j: int|
            0 <= j < labels_of(s).len() ==> #[trigger] labels_of(s)[j].location < 16,
    decreases s.len(),
{
    if s.len() > 0 {
        let rest = s.drop_last();
        assert(s.last().is_nibble_wide());
        assert forall|k: int| 0 <= k < rest.len() implies #[trigger] rest[k].is_nibble_wide() by {
            assert(rest[k] == s[k]);
        }
        lemma_label_locations(rest);
        let ls = labels_of(rest);
        if let Some(l) = s.last().label() {
            assert(labels_of(s) == ls.push(l));
            assert forall|j: int| 0 <= j < ls.len() + 1 implies #[trigger] ls.push(l)[j].location
                < 16 by {
                if j < ls.len() {
                    assert(ls.push(l)[j] == ls[j]);
                }
            }
        } else {
            assert(labels_of(s) == ls);
        }
    }
}

/// A name bound in a table of 4-bit locations is bound to a 4-bit location.
proof fn lemma_binding_location<'a>(ls: Seq<Label<'a>>, name: Seq<char>)
    requires
        forall|j: int| 0 <= j < ls.len() ==> #[trigger] ls[j].location < 16,
    ensures
        binding(ls, name) matches Some(t) ==> t < 16,
    decreases ls.len(),
{
    if ls.len() > 0 && ls.last().name@ != name {
        lemma_binding_location(ls.drop_last(), name);
    }
}

/// The image of a program whose slots are all 4-bit wide can be run.
pub proof fn lemma_image_wf<'a>(s: Seq<Instruction<'a>>)
    requires
        forall|k: int| 0 <= k < s.len() ==> #[trigger] s[k].is_nibble_wide(),
    ensures
        image_wf(code_image(s), data_image(s)),
{
    lemma_label_locations(s);
    assert forall|k: int| 0 <= k < 16 implies #[trigger] data_image(s)[k] < 16 by {
        if k < s.len() {
            assert(s[k].is_nibble_wide());
            if let Instruction::Jump(JumpArgument::Label(n), _) = s[k] {
                lemma_binding_location(labels_of(s), n@);
            }
        }
    }
}

/// Runs an image for `max_steps` steps and returns the two snapshots of each step.
pub fn simulate_binary(program: &Program, max_steps: usize) -> (r: Vec<State>)
    requires
        image_wf(program.program_memory@, program.data_memory@),
    ensures
        r@ == trace(program.program_memory@, program.data_memory@, max_steps as nat),
{
    let ghost code = program.program_memory@;
    let ghost operands = program.data_memory@;
    let mut machine = Machine::new(program);
    let mut states: Vec<State> = Vec::new();
    let mut i: usize = 0;
    while i < max_steps
        invariant
            code == program.program_memory@,
            operands == program.data_memory@,
            image_wf(code, operands),
            i <= max_steps,
            machine@ == machine_at(code, operands, i as nat),
            machine@.wf(),
            machine@.step == i as nat,
            states@ == trace(code, operands, i as nat),
        decreases max_steps - i,
    {
        let (fetch, execute) = machine.step(program);
        states.push(fetch);
        states.push(execute);
        i = i + 1;
    }
    states
}

/// Encodes a program and runs it for `max_steps` steps, two snapshots per step.
/// Fails, before any step, on a program of more than sixteen instructions or
/// with a jump to an unknown label.
pub fn simulate<'a>(instructions: Vec<Instruction<'a>>, max_steps: usize) -> (r: Result<
    Vec<State>,
    AsmError<'a>,
>)
    requires
        forall|k: int|
            0 <= k < instructions@.len() ==> #[trigger] instructions@[k].is_nibble_wide(),
    ensures
        instructions@.len() > MAX_PROGRAM_LEN ==> r matches Err(AsmError::ProgramTooLarge),
        instructions@.len() <= MAX_PROGRAM_LEN ==> match encode_error(
            instructions@,
            labels_of(instructions@),
        ) {
            Some(e) => r matches Err(e2) && e2 == e,
            None => r matches Ok(v) && v@ == trace(
                code_image(instructions@),
                data_image(instructions@),
                max_steps as nat,
            ),
        },
{
    let ghost s = instructions@;
    match generate_binary(instructions) {
        Ok(program) => {
            proof {
                lemma_image_wf(s);
            }
            Ok(simulate_binary(&program, max_steps))
        },
        Err(e) => Err(e),
    }
}

} // verus!
