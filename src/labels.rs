use vstd::prelude::*;
use vstd::string::*;

use crate::instruction::{Instruction, Label};

verus! {

/// The labels of a program in slot order, one for each instruction that carries one.
pub open spec fn labels_of<'a>(s: Seq<Instruction<'a>>) -> Seq<Label<'a>>
    decreases s.len(),
{
    if s.len() == 0 {
        Seq::empty()
    } else {
        let rest = labels_of(s.drop_last());
        match s.last().label() {
            Some(l) => rest.push(l),
            None => rest,
        }
    }
}

/// The location bound to `name`: the last label of that name wins.
pub open spec fn binding<'a>(ls: Seq<Label<'a>>, name: Seq<char>) -> Option<u8>
    decreases ls.len(),
{
    if ls.len() == 0 {
        None
    } else if ls.last().name@ == name {
        Some(ls.last().location)
    } else {
        binding(ls.drop_last(), name)
    }
}

/// The address that a jump to `name` goes to in program `s`.
pub open spec fn resolve<'a>(s: Seq<Instruction<'a>>, name: Seq<char>) -> Option<u8> {
    binding(labels_of(s), name)
}

/// Table from label name to address, built in one pass over a program.
/// Later entries shadow earlier ones of the same name.
pub struct LabelTable<'a> {
    entries: Vec<Label<'a>>,
}

impl<'a> View for LabelTable<'a> {
    type V = Seq<Label<'a>>;

    closed spec fn view(&self) -> Seq<Label<'a>> {
        self.entries@
    }
}

/// Whether two strings hold the same characters.
pub fn str_eq(a: &str, b: &str) -> (r: bool)
    ensures
        r == (a@ == b@),
{
    let n = a.unicode_len();
    if n != b.unicode_len() {
        return false;
    }
    let mut i: usize = 0;
    while i < n
        invariant
            n == a@.len(),
            n == b@.len(),
            i <= n,
            a@.subrange(0, i as int) == b@.subrange(0, i as int),
        decreases n - i,
    {
        if a.get_char(i) != b.get_char(i) {
            return false;
        }
        assert(a@.subrange(0, i + 1) =~= a@.subrange(0, i as int).push(a@[i as int]));
        assert(b@.subrange(0, i + 1) =~= b@.subrange(0, i as int).push(b@[i as int]));
        i = i + 1;
    }
    assert(a@ =~= a@.subrange(0, n as int));
    assert(b@ =~= b@.subrange(0, n as int));
    true
}

impl<'a> LabelTable<'a> {
    pub fn new() -> (r: LabelTable<'a>)
        ensures
            r@ == Seq::<Label<'a>>::empty(),
    {
        LabelTable { entries: Vec::new() }
    }

    /// The location bound to `name`, if any label has that name.
    pub fn lookup(&self, name: &str) -> (r: Option<u8>)
        ensures
            r == binding(self@, name@),
    {
        let mut i: usize = self.entries.len();
        assert(self@.subrange(0, i as int) =~= self@);
        while i > 0
            invariant
                i <= self@.len(),
                binding(self@, name@) == binding(self@.subrange(0, i as int), name@),
            decreases i,
        {
            let ghost prefix = self@.subrange(0, i as int);
            assert(prefix.drop_last() =~= self@.subrange(0, i - 1));
            let entry = self.entries[i - 1];
            if str_eq(entry.name, name) {
                return Some(entry.location);
            }
            i = i - 1;
        }
        None
    }
}

/// Adds `label`, if there is one, as the newest entry of the table.
pub fn insert_label<'a>(labels: &mut LabelTable<'a>, label: &Option<Label<'a>>)
    ensures
        final(labels)@ == match *label {
            Some(l) => old(labels)@.push(l),
            None => old(labels)@,
        },
{
    if let Some(l) = label {
        labels.entries.push(*l);
    }
}

/// Builds the label table of a program: one entry per labelled slot, in slot order.
pub fn resolve_labels<'a>(instructions: &Vec<Instruction<'a>>) -> (r: LabelTable<'a>)
    ensures
        r@ == labels_of(instructions@),
{
    let mut table = LabelTable::new();
    let mut i: usize = 0;
    while i < instructions.len()
        invariant
            i <= instructions@.len(),
            table@ == labels_of(instructions@.subrange(0, i as int)),
        decreases instructions@.len() - i,
    {
        let ghost next = instructions@.subrange(0, i + 1);
        assert(next.drop_last() =~= instructions@.subrange(0, i as int));
        let label = match instructions[i] {
            Instruction::NoArgumentInstruction(_, l) => l,
            Instruction::MemoryLocationInstruction(_, l) => l,
            Instruction::ConstantArgumentInstruction(_, l) => l,
            Instruction::ArgumentInstruction(_, l) => l,
            Instruction::Jump(_, l) => l,
        };
        insert_label(&mut table, &label);
        i = i + 1;
    }
    assert(instructions@.subrange(0, instructions@.len() as int) =~= instructions@);
    table
}

} // verus!
