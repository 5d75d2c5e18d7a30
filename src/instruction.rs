use vstd::prelude::*;

verus! {

/// Operand of LDA, ADD and SUB: a memory address or an immediate constant.
#[derive(Copy, Clone, Debug, PartialEq, Eq)]
pub enum Argument {
    MemoryLocation(u8),
    Constant(u8),
}

/// A label attached to an instruction slot; `location` is the slot's ordinal.
#[derive(Copy, Clone, Debug, PartialEq, Eq)]
pub struct Label<'a> {
    pub name: &'a str,
    pub location: u8,
}

/// Target of a jump: a literal address or a reference to a label.
#[derive(Copy, Clone, Debug, PartialEq, Eq)]
pub enum JumpArgument<'a> {
    Location(u8),
    Label(&'a str),
}

/// One decoded assembly line, with the label attached to its slot, if any.
#[derive(Copy, Clone, Debug, PartialEq, Eq)]
pub enum Instruction<'a> {
    NoArgumentInstruction(NoArgumentInstruction, Option<Label<'a>>),
    MemoryLocationInstruction(MemoryLocationInstruction, Option<Label<'a>>),
    ConstantArgumentInstruction(ConstantArgumentInstruction, Option<Label<'a>>),
    ArgumentInstruction(ArgumentInstruction, Option<Label<'a>>),
    Jump(JumpArgument<'a>, Option<Label<'a>>),
}

#[derive(Copy, Clone, Debug, PartialEq, Eq)]
pub enum NoArgumentInstruction {
    NOP,
}

#[derive(Copy, Clone, Debug, PartialEq, Eq)]
pub enum MemoryLocationInstruction {
    STA(u8),
}

/// Conditional branches; the operand is a displacement added to the program counter.
#[derive(Copy, Clone, Debug, PartialEq, Eq)]
pub enum ConstantArgumentInstruction {
    BRZ(u8),
    BRC(u8),
    BRN(u8),
}

#[derive(Copy, Clone, Debug, PartialEq, Eq)]
pub enum ArgumentInstruction {
    LDA(Argument),
    ADD(Argument),
    SUB(Argument),
}

/// An encoded instruction: the opcode and the operand word.
#[derive(Copy, Clone, Debug, PartialEq, Eq)]
pub struct BinaryInstruction {
    pub opcode: u8,
    pub argument: u8,
}

pub const OP_NOP: u8 = 0;
pub const OP_LDA_CONST: u8 = 1;
pub const OP_LDA_MEM: u8 = 2;
pub const OP_STA: u8 = 3;
pub const OP_ADD_CONST: u8 = 4;
pub const OP_ADD_MEM: u8 = 5;
pub const OP_SUB_CONST: u8 = 6;
pub const OP_SUB_MEM: u8 = 7;
pub const OP_JMP: u8 = 8;
pub const OP_BRZ: u8 = 9;
pub const OP_BRC: u8 = 10;
pub const OP_BRN: u8 = 11;

pub open spec fn binary(opcode: u8, argument: u8) -> BinaryInstruction {
    BinaryInstruction { opcode, argument }
}

pub open spec fn encode_no_argument(i: NoArgumentInstruction) -> BinaryInstruction {
    match i {
        NoArgumentInstruction::NOP => binary(OP_NOP, 0),
    }
}

pub open spec fn encode_memory_location(i: MemoryLocationInstruction) -> BinaryInstruction {
    match i {
        MemoryLocationInstruction::STA(a) => binary(OP_STA, a),
    }
}

pub open spec fn encode_constant_argument(i: ConstantArgumentInstruction) -> BinaryInstruction {
    match i {
        ConstantArgumentInstruction::BRZ(d) => binary(OP_BRZ, d),
        ConstantArgumentInstruction::BRC(d) => binary(OP_BRC, d),
        ConstantArgumentInstruction::BRN(d) => binary(OP_BRN, d),
    }
}

pub open spec fn encode_argument(i: ArgumentInstruction) -> BinaryInstruction {
    match i {
        ArgumentInstruction::LDA(Argument::MemoryLocation(a)) => binary(OP_LDA_MEM, a),
        ArgumentInstruction::LDA(Argument::Constant(c)) => binary(OP_LDA_CONST, c),
        ArgumentInstruction::ADD(Argument::MemoryLocation(a)) => binary(OP_ADD_MEM, a),
        ArgumentInstruction::ADD(Argument::Constant(c)) => binary(OP_ADD_CONST, c),
        ArgumentInstruction::SUB(Argument::MemoryLocation(a)) => binary(OP_SUB_MEM, a),
        ArgumentInstruction::SUB(Argument::Constant(c)) => binary(OP_SUB_CONST, c),
    }
}

pub open spec fn argument_is_nibble(a: Argument) -> bool {
    match a {
        Argument::MemoryLocation(v) => v < 16,
        Argument::Constant(v) => v < 16,
    }
}

impl<'a> Instruction<'a> {
    /// The label attached to this instruction's slot.
    pub open spec fn label(self) -> Option<Label<'a>> {
        match self {
            Instruction::NoArgumentInstruction(_, l) => l,
            Instruction::MemoryLocationInstruction(_, l) => l,
            Instruction::ConstantArgumentInstruction(_, l) => l,
            Instruction::ArgumentInstruction(_, l) => l,
            Instruction::Jump(_, l) => l,
        }
    }

    /// Every address, constant and displacement, and the attached label's
    /// location, fits in a 4-bit word.
    pub open spec fn is_nibble_wide(self) -> bool {
        &&& match self.label() {
            Some(l) => l.location < 16,
            None => true,
        }
        &&& match self {
            Instruction::NoArgumentInstruction(_, _) => true,
            Instruction::MemoryLocationInstruction(MemoryLocationInstruction::STA(a), _) => a < 16,
            Instruction::ConstantArgumentInstruction(c, _) => encode_constant_argument(c).argument
                < 16,
            Instruction::ArgumentInstruction(ArgumentInstruction::LDA(a), _) => argument_is_nibble(
                a,
            ),
            Instruction::ArgumentInstruction(ArgumentInstruction::ADD(a), _) => argument_is_nibble(
                a,
            ),
            Instruction::ArgumentInstruction(ArgumentInstruction::SUB(a), _) => argument_is_nibble(
                a,
            ),
            Instruction::Jump(JumpArgument::Location(t), _) => t < 16,
            Instruction::Jump(JumpArgument::Label(_), _) => true,
        }
    }
}

impl From<NoArgumentInstruction> for BinaryInstruction {
    fn from(i: NoArgumentInstruction) -> (r: BinaryInstruction)
        ensures
            r == encode_no_argument(i),
    {
        match i {
            NoArgumentInstruction::NOP => BinaryInstruction { opcode: OP_NOP, argument: 0 },
        }
    }
}

impl vstd::std_specs::convert::FromSpecImpl<NoArgumentInstruction> for BinaryInstruction {
    open spec fn obeys_from_spec() -> bool {
        true
    }

    open spec fn from_spec(i: NoArgumentInstruction) -> BinaryInstruction {
        encode_no_argument(i)
    }
}

impl From<MemoryLocationInstruction> for BinaryInstruction {
    fn from(i: MemoryLocationInstruction) -> (r: BinaryInstruction)
        ensures
            r == encode_memory_location(i),
    {
        match i {
            MemoryLocationInstruction::STA(a) => BinaryInstruction { opcode: OP_STA, argument: a },
        }
    }
}

impl vstd::std_specs::convert::FromSpecImpl<MemoryLocationInstruction> for BinaryInstruction {
    open spec fn obeys_from_spec() -> bool {
        true
    }

    open spec fn from_spec(i: MemoryLocationInstruction) -> BinaryInstruction {
        encode_memory_location(i)
    }
}

impl From<ConstantArgumentInstruction> for BinaryInstruction {
    fn from(i: ConstantArgumentInstruction) -> (r: BinaryInstruction)
        ensures
            r == encode_constant_argument(i),
    {
        match i {
            ConstantArgumentInstruction::BRZ(d) => BinaryInstruction { opcode: OP_BRZ, argument: d },
            ConstantArgumentInstruction::BRC(d) => BinaryInstruction { opcode: OP_BRC, argument: d },
            ConstantArgumentInstruction::BRN(d) => BinaryInstruction { opcode: OP_BRN, argument: d },
        }
    }
}

impl vstd::std_specs::convert::FromSpecImpl<ConstantArgumentInstruction> for BinaryInstruction {
    open spec fn obeys_from_spec() -> bool {
        true
    }

    open spec fn from_spec(i: ConstantArgumentInstruction) -> BinaryInstruction {
        encode_constant_argument(i)
    }
}

impl From<ArgumentInstruction> for BinaryInstruction {
    fn from(i: ArgumentInstruction) -> (r: BinaryInstruction)
        ensures
            r == encode_argument(i),
    {
        match i {
            ArgumentInstruction::LDA(arg) => match arg {
                Argument::MemoryLocation(a) => BinaryInstruction { opcode: OP_LDA_MEM, argument: a },
                Argument::Constant(c) => BinaryInstruction { opcode: OP_LDA_CONST, argument: c },
            },
            ArgumentInstruction::ADD(arg) => match arg {
                Argument::MemoryLocation(a) => BinaryInstruction { opcode: OP_ADD_MEM, argument: a },
                Argument::Constant(c) => BinaryInstruction { opcode: OP_ADD_CONST, argument: c },
            },
            ArgumentInstruction::SUB(arg) => match arg {
                Argument::MemoryLocation(a) => BinaryInstruction { opcode: OP_SUB_MEM, argument: a },
                Argument::Constant(c) => BinaryInstruction { opcode: OP_SUB_CONST, argument: c },
            },
        }
    }
}

impl vstd::std_specs::convert::FromSpecImpl<ArgumentInstruction> for BinaryInstruction {
    open spec fn obeys_from_spec() -> bool {
        true
    }

    open spec fn from_spec(i: ArgumentInstruction) -> BinaryInstruction {
        encode_argument(i)
    }
}

} // verus!
