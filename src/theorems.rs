use vstd::prelude::*;

use crate::instruction::OP_STA;
use crate::simulate::{
    changes_accumulator, execute_state, fetch_state, image_wf, machine_at, step_machine, trace,
    MachineView, OpcodeInfo,
};

verus! {

/// A step keeps the program counter, the accumulator and memory 4-bit wide.
pub proof fn lemma_step_wf(code: Seq<u8>, operands: Seq<u8>, m: MachineView)
    requires
        image_wf(code, operands),
        m.wf(),
    ensures
        step_machine(code, operands, m).wf(),
{
    let next = step_machine(code, operands, m);
    let arg = operands[m.pc as int];
    assert forall|k: int| 0 <= k < 16 implies #[trigger] next.memory[k] < 16 by {
        if code[m.pc as int] == OP_STA && k == arg {
            assert(next.memory[k] == m.akku);
        } else {
            assert(next.memory[k] == m.memory[k]);
        }
    }
}

/// After every commit the program counter and the accumulator lie in
/// 0..=15, and every memory word is a 4-bit value.
pub proof fn lemma_machine_wf(code: Seq<u8>, operands: Seq<u8>, k: nat)
    requires
        image_wf(code, operands),
    ensures
        machine_at(code, operands, k).wf(),
        machine_at(code, operands, k).step == k,
    decreases k,
{
    if k > 0 {
        lemma_machine_wf(code, operands, (k - 1) as nat);
        lemma_step_wf(code, operands, machine_at(code, operands, (k - 1) as nat));
    }
}

/// The trace of `n` steps holds, for each step `k`, its fetch snapshot at
/// `2k` and its execute snapshot at `2k + 1`.
pub proof fn lemma_trace_layout(code: Seq<u8>, operands: Seq<u8>, n: nat)
    ensures
        trace(code, operands, n).len() == 2 * n,
        forall|k: int|
            0 <= k < n ==> trace(code, operands, n)[2 * k] == fetch_state(
                code,
                operands,
                #[trigger] machine_at(code, operands, k as nat),
            ) && trace(code, operands, n)[2 * k + 1] == execute_state(
                code,
                operands,
                machine_at(code, operands, k as nat),
            ),
    decreases n,
{
    if n > 0 {
        lemma_trace_layout(code, operands, (n - 1) as nat);
    }
}

/// Every snapshot of a run shows a program counter and an accumulator in 0..=15.
pub proof fn lemma_snapshots_are_nibbles(code: Seq<u8>, operands: Seq<u8>, n: nat)
    requires
        image_wf(code, operands),
    ensures
        forall|i: int|
            0 <= i < trace(code, operands, n).len() ==> (#[trigger] trace(code, operands, n)[i]).pc
                < 16 && trace(code, operands, n)[i].akku < 16,
{
    lemma_trace_layout(code, operands, n);
    assert forall|i: int| 0 <= i < trace(code, operands, n).len() implies (#[trigger] trace(
        code,
        operands,
        n,
    )[i]).pc < 16 && trace(code, operands, n)[i].akku < 16 by {
        let k = i / 2;
        lemma_machine_wf(code, operands, k as nat);
        assert(machine_at(code, operands, k as nat).wf());
    }
}

/// Running `n` steps gives exactly the first `n` steps of a run of `m >= n` steps.
pub proof fn lemma_trace_prefix(code: Seq<u8>, operands: Seq<u8>, n: nat, m: nat)
    requires
        n <= m,
    ensures
        trace(code, operands, n) == trace(code, operands, m).subrange(0, 2 * n as int),
    decreases m,
{
    lemma_trace_layout(code, operands, n);
    lemma_trace_layout(code, operands, m);
    if n == m {
        assert(trace(code, operands, m).subrange(0, 2 * n as int) =~= trace(code, operands, m));
    } else {
        lemma_trace_prefix(code, operands, n, (m - 1) as nat);
        lemma_trace_layout(code, operands, (m - 1) as nat);
        assert(trace(code, operands, m).subrange(0, 2 * n as int) =~= trace(
            code,
            operands,
            (m - 1) as nat,
        ).subrange(0, 2 * n as int));
    }
}

/// A store at step `k` is not seen by step `k`'s snapshots, which read the
/// memory as it was, and is seen from step `k + 1` on.
pub proof fn lemma_store_visibility(code: Seq<u8>, operands: Seq<u8>, k: nat)
    requires
        image_wf(code, operands),
        code[machine_at(code, operands, k).pc as int] == OP_STA,
    ensures
        ({
            let before = machine_at(code, operands, k);
            let after = machine_at(code, operands, k + 1);
            let a = operands[before.pc as int];
            &&& execute_state(code, operands, before).addr_bus == a
            &&& execute_state(code, operands, before).data_bus == before.memory[a as int]
            &&& execute_state(code, operands, before).opcode_info == Some(
                OpcodeInfo { addr: a, content: before.memory[a as int] },
            )
            &&& after.memory == before.memory.update(a as int, before.akku)
            &&& fetch_state(code, operands, after).addr_bus == a ==> fetch_state(
                code,
                operands,
                after,
            ).data_bus == before.akku
            &&& execute_state(code, operands, after).addr_bus == a ==> execute_state(
                code,
                operands,
                after,
            ).data_bus == before.akku
        }),
{
    lemma_machine_wf(code, operands, k);
    assert(machine_at(code, operands, k + 1) == step_machine(
        code,
        operands,
        machine_at(code, operands, k),
    ));
}

/// The carry shown at step `k + 1` differs from the one shown at step `k`
/// only when step `k` ran LDA, ADD or SUB.
pub proof fn lemma_carry_latency(code: Seq<u8>, operands: Seq<u8>, k: nat)
    ensures
        ({
            let before = machine_at(code, operands, k);
            let after = machine_at(code, operands, k + 1);
            execute_state(code, operands, after).sr.carry != execute_state(
                code,
                operands,
                before,
            ).sr.carry ==> changes_accumulator(execute_state(code, operands, before).ir)
        }),
{
    assert(machine_at(code, operands, k + 1) == step_machine(
        code,
        operands,
        machine_at(code, operands, k),
    ));
}

/// In every execute snapshot the zero flag is set exactly when the
/// accumulator, a 4-bit value, is 0.
pub proof fn lemma_zero_flag(code: Seq<u8>, operands: Seq<u8>, n: nat)
    requires
        image_wf(code, operands),
    ensures
        forall|i: int|
            0 <= i < trace(code, operands, n).len() && (#[trigger] trace(code, operands, n)[i]).clk
                ==> trace(code, operands, n)[i].akku < 16 && (trace(code, operands, n)[i].sr.zero
                <==> trace(code, operands, n)[i].akku == 0),
{
    lemma_trace_layout(code, operands, n);
    lemma_snapshots_are_nibbles(code, operands, n);
    assert forall|i: int|
        0 <= i < trace(code, operands, n).len() && (#[trigger] trace(
            code,
            operands,
            n,
        )[i]).clk implies (trace(code, operands, n)[i].sr.zero <==> trace(code, operands, n)[i].akku
        == 0) by {
        let m = machine_at(code, operands, (i / 2) as nat);
        if i % 2 == 0 {
            assert(!fetch_state(code, operands, m).clk);
        }
    }
}

} // verus!
