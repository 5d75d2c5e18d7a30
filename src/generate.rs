use vstd::prelude::*;

use crate::instruction::{
    binary, encode_argument, encode_constant_argument, encode_memory_location,
    encode_no_argument, BinaryInstruction, Instruction, JumpArgument, Label, OP_JMP, OP_NOP,
};
use crate::labels::{binding, labels_of, resolve_labels, LabelTable};

verus! {

/// Largest number of instructions a program may have: one per memory word.
pub const MAX_PROGRAM_LEN: usize = 16;

/// Why a program cannot be encoded or simulated.
#[derive(Copy, Clone, Debug, PartialEq, Eq)]
pub enum AsmError<'a> {
    /// The program has more instructions than the machine has memory words.
    ProgramTooLarge,
    /// A jump names a label that no instruction carries.
    UnresolvedLabel(&'a str),
}

/// The binary image of a program: the operand (data) plane and the opcode
/// (program) plane, each indexed by instruction ordinal.
#[derive(Copy, Clone, Debug, PartialEq, Eq)]
pub struct Program {
    pub data_memory: [u8; 16],
    pub program_memory: [u8; 16],
}

/// The encoding of one instruction, given the program's labels.
pub open spec fn encode<'a>(i: Instruction<'a>, ls: Seq<Label<'a>>) -> Result<
    BinaryInstruction,
    AsmError<'a>,
> {
    match i {
        Instruction::NoArgumentInstruction(x, _) => Ok(encode_no_argument(x)),
        Instruction::MemoryLocationInstruction(x, _) => Ok(encode_memory_location(x)),
        Instruction::ConstantArgumentInstruction(x, _) => Ok(encode_constant_argument(x)),
        Instruction::ArgumentInstruction(x, _) => Ok(encode_argument(x)),
        Instruction::Jump(JumpArgument::Location(t), _) => Ok(binary(OP_JMP, t)),
        Instruction::Jump(JumpArgument::Label(n), _) => match binding(ls, n@) {
            Some(t) => Ok(binary(OP_JMP, t)),
            None => Err(AsmError::UnresolvedLabel(n)),
        },
    }
}

/// The first error met when encoding the instructions of `s` in order, if any.
pub open spec fn encode_error<'a>(s: Seq<Instruction<'a>>, ls: Seq<Label<'a>>) -> Option<
    AsmError<'a>,
>
    decreases s.len(),
{
    if s.len() == 0 {
        None
    } else {
        match encode_error(s.drop_last(), ls) {
            Some(e) => Some(e),
            None => match encode(s.last(), ls) {
                Ok(_) => None,
                Err(e) => Some(e),
            },
        }
    }
}

/// The word at address `k` of program `s`'s image; slots past the end hold NOP.
pub open spec fn word_at<'a>(s: Seq<Instruction<'a>>, k: int) -> BinaryInstruction {
    if 0 <= k < s.len() {
        match encode(s[k], labels_of(s)) {
            Ok(b) => b,
            Err(_) => binary(OP_NOP, 0),
        }
    } else {
        binary(OP_NOP, 0)
    }
}

/// The opcode plane of program `s`.
pub open spec fn code_image<'a>(s: Seq<Instruction<'a>>) -> Seq<u8> {
    Seq::new(16, |k: int| word_at(s, k).opcode)
}

/// The operand plane of program `s`, which is also the machine's initial memory.
pub open spec fn data_image<'a>(s: Seq<Instruction<'a>>) -> Seq<u8> {
    Seq::new(16, |k: int| word_at(s, k).argument)
}

/// An error in the first `k` instructions is the error of the whole program.
proof fn lemma_encode_error_prefix<'a>(s: Seq<Instruction<'a>>, ls: Seq<Label<'a>>, k: int)
    requires
        0 <= k <= s.len(),
        encode_error(s.subrange(0, k), ls) is Some,
    ensures
        encode_error(s, ls) == encode_error(s.subrange(0, k), ls),
    decreases s.len(),
{
    if k == s.len() {
        assert(s.subrange(0, k) =~= s);
    } else {
        assert(s.drop_last().subrange(0, k) =~= s.subrange(0, k));
        lemma_encode_error_prefix(s.drop_last(), ls, k);
    }
}

/// Encodes one instruction, looking jump labels up in `labels`.
pub fn encode_instruction<'a>(instruction: &Instruction<'a>, labels: &LabelTable<'a>) -> (r: Result<
    BinaryInstruction,
    AsmError<'a>,
>)
    ensures
        r == encode(*instruction, labels@),
{
    match *instruction {
        Instruction::NoArgumentInstruction(x, _) => Ok(BinaryInstruction::from(x)),
        Instruction::MemoryLocationInstruction(x, _) => Ok(BinaryInstruction::from(x)),
        Instruction::ConstantArgumentInstruction(x, _) => Ok(BinaryInstruction::from(x)),
        Instruction::ArgumentInstruction(x, _) => Ok(BinaryInstruction::from(x)),
        Instruction::Jump(JumpArgument::Location(t), _) => Ok(
            BinaryInstruction { opcode: OP_JMP, argument: t },
        ),
        Instruction::Jump(JumpArgument::Label(n), _) => match labels.lookup(n) {
            Some(t) => Ok(BinaryInstruction { opcode: OP_JMP, argument: t }),
            None => Err(AsmError::UnresolvedLabel(n)),
        },
    }
}

/// Lays out the binary image of a program: at each instruction's ordinal, its
/// opcode in the program plane and its operand in the data plane.
pub fn generate_binary<'a>(instructions: Vec<Instruction<'a>>) -> (r: Result<Program, AsmError<'a>>)
    ensures
        instructions@.len() > MAX_PROGRAM_LEN ==> r == Err::<Program, AsmError<'a>>(
            AsmError::ProgramTooLarge,
        ),
        instructions@.len() <= MAX_PROGRAM_LEN ==> match encode_error(
            instructions@,
            labels_of(instructions@),
        ) {
            Some(e) => r == Err::<Program, AsmError<'a>>(e),
            None => r matches Ok(p) && p.program_memory@ == code_image(instructions@)
                && p.data_memory@ == data_image(instructions@),
        },
{
    if instructions.len() > MAX_PROGRAM_LEN {
        return Err(AsmError::ProgramTooLarge);
    }
    let labels = resolve_labels(&instructions);
    let ghost s = instructions@;
    let ghost ls = labels_of(s);
    let mut data_memory: [u8; 16] = [0u8; 16];
    let mut program_memory: [u8; 16] = [0u8; 16];
    let mut c: usize = 0;
    while c < instructions.len()
        invariant
            s == instructions@,
            ls == labels@,
            ls == labels_of(s),
            s.len() <= 16,
            c <= s.len(),
            encode_error(s.subrange(0, c as int), ls) is None,
            forall|k: int| 0 <= k < c ==> #[trigger] program_memory@[k] == word_at(s, k).opcode,
            forall|k: int| 0 <= k < c ==> #[trigger] data_memory@[k] == word_at(s, k).argument,
            forall|k: int| c <= k < 16 ==> #[trigger] program_memory@[k] == 0,
            forall|k: int| c <= k < 16 ==> #[trigger] data_memory@[k] == 0,
        decreases s.len() - c,
    {
        let ghost prefix = s.subrange(0, c + 1);
        assert(prefix.drop_last() =~= s.subrange(0, c as int));
        match encode_instruction(&instructions[c], &labels) {
            Ok(b) => {
                assert(word_at(s, c as int) == b);
                program_memory[c] = b.opcode;
                data_memory[c] = b.argument;
            },
            Err(e) => {
                proof {
                    lemma_encode_error_prefix(s, ls, c + 1);
                }
                return Err(e);
            },
        }
        c = c + 1;
    }
    assert(s.subrange(0, s.len() as int) =~= s);
    let p = Program { data_memory, program_memory };
    assert(p.program_memory@ =~= code_image(s));
    assert(p.data_memory@ =~= data_image(s));
    Ok(p)
}

} // verus!
