//! The claim that a transaction's outputs are those that its kernel commits to.

use vstd::prelude::*;

use crate::claims::machine::lemma_run_append;
use crate::claims::machine::lemma_run_push;
use crate::claims::machine::lemma_word_at_written;
use crate::claims::machine::ops;
use crate::claims::machine::read_words;
use crate::claims::machine::run;
use crate::claims::machine::topmost;
use crate::claims::machine::word_at;
use crate::claims::machine::write_words;
use crate::claims::machine::Environment;
use crate::claims::machine::Instruction;
use crate::claims::machine::MachineState;
use crate::claims::machine::Op;
use crate::digest::Digest;
use crate::field::P;

verus! {

/// The types of values on the stack.
#[derive(Clone, Copy, Debug, PartialEq, Eq, Structural)]
pub enum DataType {
    Digest,
    Bfe,
    VoidPointer,
}

/// A snippet that puts a claim into memory: that the outputs of a transaction, by their salted
/// hash, are those that the transaction kernel commits to.
#[derive(Clone, Copy, Debug)]
pub struct GenerateK2oClaim {}

/// The snippet's entrypoint.
pub open spec fn k2o_entrypoint() -> Seq<char> {
    "tasm_neptune_transaction_proof_collection_store_k2o_claim"@
}

/// Makes room for a claim.
pub open spec fn make_claim(new_claim: Seq<char>) -> Seq<Op> {
    seq![Op::Push(5), Op::Push(5), Op::Call(new_claim)]
}

/// Writes the program digest into the claim.
pub open spec fn store_program_digest(program_digest: Digest) -> Seq<Op> {
    seq![
        Op::Push(program_digest.e4),
        Op::Push(program_digest.e3),
        Op::Push(program_digest.e2),
        Op::Push(program_digest.e1),
        Op::Push(program_digest.e0),
        Op::Dup(5),
        Op::WriteMem(5),
        Op::Pop(2),
    ]
}

/// Writes the transaction kernel digest, reversed, into the input of the claim.
pub open spec fn store_input() -> Seq<Op> {
    seq![
        Op::Dup(6),
        Op::Dup(8),
        Op::Dup(10),
        Op::Dup(12),
        Op::Dup(14),
        Op::Dup(5),
        Op::WriteMem(5),
        Op::Pop(2),
    ]
}

/// Loads a digest, and writes it into the output of the claim.
pub open spec fn store_output() -> Seq<Op> {
    seq![Op::AddI(4), Op::ReadMem(5), Op::Pop(1), Op::Dup(5), Op::WriteMem(5), Op::Pop(2)]
}

/// The body of the snippet. `accessor` replaces a pointer to a proof collection by one to its
/// salted outputs hash.
pub open spec fn k2o_body(
    new_claim: Seq<char>,
    program_digest: Digest,
    accessor: Seq<Op>,
) -> Seq<Op> {
    make_claim(new_claim) + store_program_digest(program_digest) + store_input() + seq![Op::Dup(2)]
        + accessor + store_output()
}

/// The snippet.
pub open spec fn k2o_code(
    new_claim: Seq<char>,
    program_digest: Digest,
    accessor: Seq<Op>,
) -> Seq<Op> {
    seq![Op::Label(k2o_entrypoint())] + k2o_body(new_claim, program_digest, accessor) + seq![
        Op::Return,
    ]
}

/// The names of the values that the snippet expects.
pub open spec fn k2o_inputs() -> Seq<(DataType, Seq<char>)> {
    seq![
        (DataType::Digest, "transaction_kernel_digest"@),
        (DataType::Bfe, "garb0"@),
        (DataType::Bfe, "garb1"@),
        (DataType::VoidPointer, "proof_collection_pointer"@),
    ]
}

/// What the entries of a list of values are.
pub open spec fn value_views(values: Seq<(DataType, String)>) -> Seq<(DataType, Seq<char>)> {
    values.map_values(|v: (DataType, String)| (v.0, v.1@))
}

/// Copies of the instructions, one after the other.
fn push_copies(out: &mut Vec<Instruction>, code: &Vec<Instruction>)
    ensures
        ops(final(out)@) == ops(old(out)@) + ops(code@),
{
    let ghost before = ops(out@);
    let mut i: usize = 0;
    assert(ops(out@) =~= before + ops(code@).take(0));
    while i < code.len()
        invariant
            i <= code@.len(),
            ops(out@) == before + ops(code@).take(i as int),
        decreases code@.len() - i,
    {
        let copy = match &code[i] {
            Instruction::Label(name) => Instruction::Label(name.clone()),
            Instruction::Push(value) => Instruction::Push(*value),
            Instruction::Pop(n) => Instruction::Pop(*n),
            Instruction::Dup(depth) => Instruction::Dup(*depth),
            Instruction::AddI(value) => Instruction::AddI(*value),
            Instruction::ReadMem(n) => Instruction::ReadMem(*n),
            Instruction::WriteMem(n) => Instruction::WriteMem(*n),
            Instruction::Call(name) => Instruction::Call(name.clone()),
            Instruction::Return => Instruction::Return,
            Instruction::Verbatim(text) => Instruction::Verbatim(text.clone()),
        };
        assert(copy@ == ops(code@)[i as int]);
        push_op(out, copy);
        assert(ops(out@) =~= before + ops(code@).take(i + 1));
        i = i + 1;
    }
    assert(ops(code@).take(i as int) =~= ops(code@));
}

/// One more instruction.
fn push_op(out: &mut Vec<Instruction>, op: Instruction)
    ensures
        ops(final(out)@) == ops(old(out)@).push(op@),
{
    out.push(op);
    assert(ops(out@) =~= ops(old(out)@).push(op@));
}

impl GenerateK2oClaim {
    /// The values that the snippet expects on the stack.
    pub fn inputs(&self) -> (values: Vec<(DataType, String)>)
        ensures
            value_views(values@) == k2o_inputs(),
    {
        let mut values: Vec<(DataType, String)> = Vec::new();
        values.push((DataType::Digest, "transaction_kernel_digest".to_owned()));
        values.push((DataType::Bfe, "garb0".to_owned()));
        values.push((DataType::Bfe, "garb1".to_owned()));
        values.push((DataType::VoidPointer, "proof_collection_pointer".to_owned()));
        assert(value_views(values@) =~= k2o_inputs());
        values
    }

    /// The values that the snippet leaves on the stack: those that it found, and then a pointer to
    /// the claim.
    pub fn outputs(&self) -> (values: Vec<(DataType, String)>)
        ensures
            value_views(values@) == k2o_inputs().push((DataType::VoidPointer, "claim"@)),
    {
        let mut values = self.inputs();
        let ghost inputs = values@;
        values.push((DataType::VoidPointer, "claim".to_owned()));
        assert(value_views(values@) =~= value_views(inputs).push(
            (DataType::VoidPointer, "claim"@),
        ));
        values
    }

    /// The name by which the snippet is called.
    pub fn entrypoint(&self) -> (s: String)
        ensures
            s@ == k2o_entrypoint(),
    {
        "tasm_neptune_transaction_proof_collection_store_k2o_claim".to_owned()
    }

    /// The snippet.
    ///
    /// - Before: `_ [txk_digest] garb0 garb1 *proof_collection`
    /// - After:  `_ [txk_digest] garb0 garb1 *proof_collection *claim`
    pub fn code(
        &self,
        new_claim: &String,
        program_digest: &Digest,
        accessor: &Vec<Instruction>,
    ) -> (code: Vec<Instruction>)
        ensures
            ops(code@) == k2o_code(new_claim@, *program_digest, ops(accessor@)),
    {
        let mut code: Vec<Instruction> = Vec::new();
        assert(ops(code@) =~= Seq::<Op>::empty());
        push_op(&mut code, Instruction::Label(self.entrypoint()));
        push_op(&mut code, Instruction::Push(5));
        push_op(&mut code, Instruction::Push(5));
        push_op(&mut code, Instruction::Call(new_claim.clone()));
        push_op(&mut code, Instruction::Push(program_digest.e4));
        push_op(&mut code, Instruction::Push(program_digest.e3));
        push_op(&mut code, Instruction::Push(program_digest.e2));
        push_op(&mut code, Instruction::Push(program_digest.e1));
        push_op(&mut code, Instruction::Push(program_digest.e0));
        push_op(&mut code, Instruction::Dup(5));
        push_op(&mut code, Instruction::WriteMem(5));
        push_op(&mut code, Instruction::Pop(2));
        push_op(&mut code, Instruction::Dup(6));
        push_op(&mut code, Instruction::Dup(8));
        push_op(&mut code, Instruction::Dup(10));
        push_op(&mut code, Instruction::Dup(12));
        push_op(&mut code, Instruction::Dup(14));
        push_op(&mut code, Instruction::Dup(5));
        push_op(&mut code, Instruction::WriteMem(5));
        push_op(&mut code, Instruction::Pop(2));
        push_op(&mut code, Instruction::Dup(2));
        push_copies(&mut code, accessor);
        push_op(&mut code, Instruction::AddI(4));
        push_op(&mut code, Instruction::ReadMem(5));
        push_op(&mut code, Instruction::Pop(1));
        push_op(&mut code, Instruction::Dup(5));
        push_op(&mut code, Instruction::WriteMem(5));
        push_op(&mut code, Instruction::Pop(2));
        push_op(&mut code, Instruction::Return);
        assert(ops(code@) =~= k2o_code(new_claim@, *program_digest, ops(accessor@)));
        code
    }
}

/// The elements of a digest as field elements.
pub open spec fn digest_words(d: Digest) -> Seq<int> {
    seq![
        d.e0 as int % P as int,
        d.e1 as int % P as int,
        d.e2 as int % P as int,
        d.e3 as int % P as int,
        d.e4 as int % P as int,
    ]
}

/// What is known before the snippet is run: what lies on the stack, and what the code does that the
/// snippet calls.
pub struct K2oSetting {
    /// What lies on the stack below the arguments.
    pub below: Seq<int>,
    /// The elements of the transaction kernel digest.
    pub txk_digest: Seq<int>,
    pub garb0: int,
    pub garb1: int,
    pub proof_collection: int,
    pub memory: Map<int, int>,
    /// What the called code returns: pointers to the new claim and its parts, and the memory.
    pub claim: int,
    pub output: int,
    pub input: int,
    pub program: int,
    pub memory_with_claim: Map<int, int>,
    /// Where the salted outputs hash of the proof collection lies.
    pub salted_outputs_hash: int,
}

impl K2oSetting {
    /// All pointers, and all elements of the transaction kernel digest, are field elements.
    pub open spec fn well_formed(self) -> bool {
        &&& self.txk_digest.len() == 5
        &&& 0 <= self.output < P
        &&& 0 <= self.input < P
        &&& 0 <= self.program < P
        &&& 0 <= self.salted_outputs_hash < P
    }

    /// The stack before the snippet is run. The first element of the digest is the topmost one.
    pub open spec fn stack(self) -> Seq<int> {
        self.below + seq![
            self.txk_digest[4],
            self.txk_digest[3],
            self.txk_digest[2],
            self.txk_digest[1],
            self.txk_digest[0],
            self.garb0,
            self.garb1,
            self.proof_collection,
        ]
    }

    /// The memory once the program digest is written.
    pub open spec fn memory_with_program(self, program_digest: Digest) -> Map<int, int> {
        write_words(self.memory_with_claim, self.program, digest_words(program_digest))
    }

    /// The memory once the input is written, too.
    pub open spec fn memory_with_input(self, program_digest: Digest) -> Map<int, int> {
        write_words(
            self.memory_with_program(program_digest),
            self.input,
            seq![
                self.txk_digest[4],
                self.txk_digest[3],
                self.txk_digest[2],
                self.txk_digest[1],
                self.txk_digest[0],
            ],
        )
    }

    /// The five words at an address, as they are in some memory.
    pub open spec fn words_at(memory: Map<int, int>, address: int) -> Seq<int> {
        seq![
            word_at(memory, address),
            word_at(memory, (address + 1) % (P as int)),
            word_at(memory, (address + 2) % (P as int)),
            word_at(memory, (address + 3) % (P as int)),
            word_at(memory, (address + 4) % (P as int)),
        ]
    }

    /// The memory once the output is written, too.
    pub open spec fn memory_after(self, program_digest: Digest) -> Map<int, int> {
        let memory = self.memory_with_input(program_digest);
        write_words(memory, self.output, K2oSetting::words_at(memory, self.salted_outputs_hash))
    }

    /// The code that the snippet calls does what it is called for.
    pub open spec fn callees_work(
        self,
        new_claim: Seq<char>,
        program_digest: Digest,
        accessor: Seq<Op>,
        env: Environment,
    ) -> bool {
        let stack = self.stack();
        let made = stack.push(self.claim).push(self.output);
        let memory = self.memory_with_input(program_digest);
        &&& (env.call)(
            new_claim,
            MachineState { stack: stack.push(5).push(5), memory: self.memory },
        ) == (MachineState {
            stack: made.push(self.input).push(self.program),
            memory: self.memory_with_claim,
        })
        &&& run(
            accessor,
            MachineState { stack: made.push(self.proof_collection), memory },
            env,
        ) == (MachineState { stack: made.push(self.salted_outputs_hash), memory })
    }
}

proof fn lemma_make_claim(
    t: K2oSetting,
    new_claim: Seq<char>,
    program_digest: Digest,
    accessor: Seq<Op>,
    env: Environment,
)
    requires
        t.well_formed(),
        t.callees_work(new_claim, program_digest, accessor, env),
    ensures
        run(make_claim(new_claim), MachineState { stack: t.stack(), memory: t.memory }, env) == (
        MachineState {
            stack: t.stack().push(t.claim).push(t.output).push(t.input).push(t.program),
            memory: t.memory_with_claim,
        }),
{
    broadcast use lemma_run_push;

    let stack = t.stack();
    let s = MachineState { stack, memory: t.memory };
    assert(5int % P as int == 5);
    let e = Seq::<Op>::empty();
    let c1 = e.push(Op::Push(5));
    let c2 = c1.push(Op::Push(5));
    let c3 = c2.push(Op::Call(new_claim));
    assert(make_claim(new_claim) =~= c3);
    assert(run(e, s, env) == s);
    assert(run(c1, s, env) =~= (MachineState { stack: stack.push(5), memory: t.memory }));
    assert(run(c2, s, env) =~= (MachineState { stack: stack.push(5).push(5), memory: t.memory }));
}

proof fn lemma_store_program_digest(
    t: K2oSetting,
    program_digest: Digest,
    env: Environment,
)
    requires
        t.well_formed(),
    ensures
        run(
            store_program_digest(program_digest),
            MachineState {
                stack: t.stack().push(t.claim).push(t.output).push(t.input).push(t.program),
                memory: t.memory_with_claim,
            },
            env,
        ) == (MachineState {
            stack: t.stack().push(t.claim).push(t.output).push(t.input),
            memory: t.memory_with_program(program_digest),
        }),
{
    broadcast use lemma_run_push;

    let d = digest_words(program_digest);
    let m = t.memory_with_claim;
    let kept = t.stack().push(t.claim).push(t.output).push(t.input);
    let s0 = kept.push(t.program);
    let s = MachineState { stack: s0, memory: m };
    let s1 = s0.push(d[4]);
    let s2 = s1.push(d[3]);
    let s3 = s2.push(d[2]);
    let s4 = s3.push(d[1]);
    let s5 = s4.push(d[0]);
    let m1 = t.memory_with_program(program_digest);
    let end = (t.program + 5) % (P as int);
    assert(topmost(s5, 5) =~= d);
    assert(s5.push(t.program).drop_last() =~= s5);
    let e = Seq::<Op>::empty();
    let c1 = e.push(Op::Push(program_digest.e4));
    let c2 = c1.push(Op::Push(program_digest.e3));
    let c3 = c2.push(Op::Push(program_digest.e2));
    let c4 = c3.push(Op::Push(program_digest.e1));
    let c5 = c4.push(Op::Push(program_digest.e0));
    let c6 = c5.push(Op::Dup(5));
    let c7 = c6.push(Op::WriteMem(5));
    let c8 = c7.push(Op::Pop(2));
    assert(store_program_digest(program_digest) =~= c8);
    assert(run(e, s, env) == s);
    assert(run(c1, s, env) =~= (MachineState { stack: s1, memory: m }));
    assert(run(c2, s, env) =~= (MachineState { stack: s2, memory: m }));
    assert(run(c3, s, env) =~= (MachineState { stack: s3, memory: m }));
    assert(run(c4, s, env) =~= (MachineState { stack: s4, memory: m }));
    assert(run(c5, s, env) =~= (MachineState { stack: s5, memory: m }));
    assert(run(c6, s, env) =~= (MachineState { stack: s5.push(t.program), memory: m }));
    assert(run(c7, s, env) =~= (MachineState { stack: s0.push(end), memory: m1 }));
    assert(run(c8, s, env) =~= (MachineState { stack: kept, memory: m1 }));
}

proof fn lemma_store_input(
    t: K2oSetting,
    program_digest: Digest,
    env: Environment,
)
    requires
        t.well_formed(),
    ensures
        run(
            store_input(),
            MachineState {
                stack: t.stack().push(t.claim).push(t.output).push(t.input),
                memory: t.memory_with_program(program_digest),
            },
            env,
        ) == (MachineState {
            stack: t.stack().push(t.claim).push(t.output),
            memory: t.memory_with_input(program_digest),
        }),
{
    broadcast use lemma_run_push;

    let x = t.txk_digest;
    let m = t.memory_with_program(program_digest);
    let kept = t.stack().push(t.claim).push(t.output);
    let s0 = kept.push(t.input);
    let s = MachineState { stack: s0, memory: m };
    let s1 = s0.push(x[0]);
    let s2 = s1.push(x[1]);
    let s3 = s2.push(x[2]);
    let s4 = s3.push(x[3]);
    let s5 = s4.push(x[4]);
    let m1 = t.memory_with_input(program_digest);
    let end = (t.input + 5) % (P as int);
    assert(topmost(s5, 5) =~= seq![x[4], x[3], x[2], x[1], x[0]]);
    assert(s5.push(t.input).drop_last() =~= s5);
    let e = Seq::<Op>::empty();
    let c1 = e.push(Op::Dup(6));
    let c2 = c1.push(Op::Dup(8));
    let c3 = c2.push(Op::Dup(10));
    let c4 = c3.push(Op::Dup(12));
    let c5 = c4.push(Op::Dup(14));
    let c6 = c5.push(Op::Dup(5));
    let c7 = c6.push(Op::WriteMem(5));
    let c8 = c7.push(Op::Pop(2));
    assert(store_input() =~= c8);
    assert(run(e, s, env) == s);
    assert(run(c1, s, env) =~= (MachineState { stack: s1, memory: m }));
    assert(run(c2, s, env) =~= (MachineState { stack: s2, memory: m }));
    assert(run(c3, s, env) =~= (MachineState { stack: s3, memory: m }));
    assert(run(c4, s, env) =~= (MachineState { stack: s4, memory: m }));
    assert(run(c5, s, env) =~= (MachineState { stack: s5, memory: m }));
    assert(run(c6, s, env) =~= (MachineState { stack: s5.push(t.input), memory: m }));
    assert(run(c7, s, env) =~= (MachineState { stack: s0.push(end), memory: m1 }));
    assert(run(c8, s, env) =~= (MachineState { stack: kept, memory: m1 }));
}

/// Reading downwards from the last of five words gives them in reverse order.
proof fn lemma_read_five(memory: Map<int, int>, address: int)
    requires
        0 <= address < P,
    ensures
        ({
            let h = K2oSetting::words_at(memory, address);
            read_words(memory, (address + 4) % (P as int), 5) == seq![h[4], h[3], h[2], h[1], h[0]]
        }),
{
    let p = P as int;
    let h = K2oSetting::words_at(memory, address);
    let a4 = (address + 4) % p;
    let a3 = (address + 3) % p;
    let a2 = (address + 2) % p;
    let a1 = (address + 1) % p;
    assert((a4 - 1) % p == a3);
    assert((a3 - 1) % p == a2);
    assert((a2 - 1) % p == a1);
    assert((a1 - 1) % p == address);
    let r0 = read_words(memory, (address - 1) % p, 0);
    let r1 = read_words(memory, address, 1);
    let r2 = read_words(memory, a1, 2);
    let r3 = read_words(memory, a2, 3);
    let r4 = read_words(memory, a3, 4);
    let r5 = read_words(memory, a4, 5);
    assert(r1 =~= seq![h[0]]);
    assert(r2 =~= seq![h[1], h[0]]);
    assert(r3 =~= seq![h[2], h[1], h[0]]);
    assert(r4 =~= seq![h[3], h[2], h[1], h[0]]);
    assert(r5 =~= seq![h[4], h[3], h[2], h[1], h[0]]);
}

proof fn lemma_store_output(t: K2oSetting, program_digest: Digest, env: Environment)
    requires
        t.well_formed(),
    ensures
        run(
            store_output(),
            MachineState {
                stack: t.stack().push(t.claim).push(t.output).push(t.salted_outputs_hash),
                memory: t.memory_with_input(program_digest),
            },
            env,
        ) == (MachineState {
            stack: t.stack().push(t.claim),
            memory: t.memory_after(program_digest),
        }),
{
    broadcast use lemma_run_push;

    let p = P as int;
    let a = t.salted_outputs_hash;
    let m = t.memory_with_input(program_digest);
    let h = K2oSetting::words_at(m, a);
    let kept = t.stack().push(t.claim);
    let s0 = kept.push(t.output);
    let s = MachineState { stack: s0.push(a), memory: m };
    let top = (a + 4) % p;
    let below = (top - 5) % p;
    let m1 = t.memory_after(program_digest);
    let end = (t.output + 5) % p;
    let s2 = s0.push(h[4]).push(h[3]).push(h[2]).push(h[1]).push(h[0]);
    lemma_read_five(m, a);
    assert(topmost(s2, 5) =~= h);
    assert(s2.push(t.output).drop_last() =~= s2);
    assert(s0.push(top).drop_last() =~= s0);
    let e = Seq::<Op>::empty();
    let c1 = e.push(Op::AddI(4));
    let c2 = c1.push(Op::ReadMem(5));
    let c3 = c2.push(Op::Pop(1));
    let c4 = c3.push(Op::Dup(5));
    let c5 = c4.push(Op::WriteMem(5));
    let c6 = c5.push(Op::Pop(2));
    assert(store_output() =~= c6);
    assert(run(e, s, env) == s);
    assert(run(c1, s, env) =~= (MachineState { stack: s0.push(top), memory: m }));
    assert(run(c2, s, env) =~= (MachineState { stack: s2.push(below), memory: m }));
    assert(run(c3, s, env) =~= (MachineState { stack: s2, memory: m }));
    assert(run(c4, s, env) =~= (MachineState { stack: s2.push(t.output), memory: m }));
    assert(run(c5, s, env) =~= (MachineState { stack: s0.push(end), memory: m1 }));
    assert(run(c6, s, env) =~= (MachineState { stack: kept, memory: m1 }));
}

/// If the code that it calls works, the snippet leaves the stack as it found it, with a pointer to
/// the claim on top; and all it does to the memory is to fill in the program digest, the reversed
/// transaction kernel digest as the input, and the salted outputs hash as the output.
pub proof fn lemma_k2o_claim(
    t: K2oSetting,
    new_claim: Seq<char>,
    program_digest: Digest,
    accessor: Seq<Op>,
    env: Environment,
)
    requires
        t.well_formed(),
        t.callees_work(new_claim, program_digest, accessor, env),
    ensures
        run(
            k2o_code(new_claim, program_digest, accessor),
            MachineState { stack: t.stack(), memory: t.memory },
            env,
        ) == (MachineState {
            stack: t.stack().push(t.claim),
            memory: t.memory_after(program_digest),
        }),
{
    broadcast use lemma_run_push;

    let s = MachineState { stack: t.stack(), memory: t.memory };
    let label = seq![Op::Label(k2o_entrypoint())];
    let c1 = make_claim(new_claim);
    let c2 = c1 + store_program_digest(program_digest);
    let c3 = c2 + store_input();
    let c4 = c3 + seq![Op::Dup(2)];
    let c5 = c4 + accessor;
    let body = k2o_body(new_claim, program_digest, accessor);
    assert(run(Seq::<Op>::empty(), s, env) == s);
    assert(run(label, s, env) == s);
    lemma_run_append(label, body, s, env);
    lemma_make_claim(t, new_claim, program_digest, accessor, env);
    lemma_run_append(c1, store_program_digest(program_digest), s, env);
    lemma_store_program_digest(t, program_digest, env);
    lemma_run_append(c2, store_input(), s, env);
    lemma_store_input(t, program_digest, env);
    let s3 = run(c3, s, env);
    lemma_run_append(c3, seq![Op::Dup(2)], s, env);
    assert(run(Seq::<Op>::empty(), s3, env) == s3);
    assert(s3.stack[s3.stack.len() - 3] == t.proof_collection);
    lemma_run_append(c4, accessor, s, env);
    lemma_run_append(c5, store_output(), s, env);
    lemma_store_output(t, program_digest, env);
    let all = label + body;
    lemma_run_append(all, seq![Op::Return], s, env);
    let end = run(all, s, env);
    assert(run(Seq::<Op>::empty(), end, env) == end);
}

/// Two stretches of five words do not overlap.
pub open spec fn apart(a: int, b: int) -> bool {
    a + 5 <= b || b + 5 <= a
}

/// If the parts of the claim, and the salted outputs hash, do not overlap in memory, then the claim
/// holds, in the end, the program digest, the reversed transaction kernel digest as its input, and
/// as its output the salted outputs hash that was in memory all along. Nothing else has changed
/// since room was made for the claim.
pub proof fn lemma_k2o_claim_contents(t: K2oSetting, program_digest: Digest)
    requires
        t.well_formed(),
        t.program + 5 <= P,
        t.input + 5 <= P,
        t.output + 5 <= P,
        t.salted_outputs_hash + 5 <= P,
        apart(t.program, t.input),
        apart(t.program, t.output),
        apart(t.input, t.output),
        apart(t.salted_outputs_hash, t.program),
        apart(t.salted_outputs_hash, t.input),
        apart(t.salted_outputs_hash, t.output),
    ensures
        forall|i: int|
            #![trigger digest_words(program_digest)[i]]
            0 <= i < 5 ==> word_at(t.memory_after(program_digest), t.program + i) == digest_words(
                program_digest,
            )[i],
        forall|i: int|
            #![trigger t.txk_digest[i]]
            0 <= i < 5 ==> word_at(t.memory_after(program_digest), t.input + 4 - i)
                == t.txk_digest[i],
        forall|i: int|
            #![trigger word_at(t.memory_with_claim, t.salted_outputs_hash + i)]
            0 <= i < 5 ==> word_at(t.memory_after(program_digest), t.output + i) == word_at(
                t.memory_with_claim,
                t.salted_outputs_hash + i,
            ),
        forall|at: int|
            #![trigger word_at(t.memory_after(program_digest), at)]
            0 <= at < P && !(t.program <= at < t.program + 5) && !(t.input <= at < t.input + 5)
                && !(t.output <= at < t.output + 5) ==> word_at(t.memory_after(program_digest), at)
                == word_at(t.memory_with_claim, at),
{
    let p = P as int;
    let d = digest_words(program_digest);
    let x = t.txk_digest;
    let m1 = t.memory_with_claim;
    let m2 = t.memory_with_program(program_digest);
    let m3 = t.memory_with_input(program_digest);
    let m4 = t.memory_after(program_digest);
    let reversed = seq![x[4], x[3], x[2], x[1], x[0]];
    let h = K2oSetting::words_at(m3, t.salted_outputs_hash);
    assert forall|at: int| 0 <= at < p implies #[trigger] word_at(m4, at) == (if t.output <= at
        < t.output + 5 {
        h[at - t.output]
    } else if t.input <= at < t.input + 5 {
        reversed[at - t.input]
    } else if t.program <= at < t.program + 5 {
        d[at - t.program]
    } else {
        word_at(m1, at)
    }) by {
        lemma_word_at_written(m3, t.output, h, at);
        lemma_word_at_written(m2, t.input, reversed, at);
        lemma_word_at_written(m1, t.program, d, at);
    }
    assert forall|i: int| 0 <= i < 5 implies h[i] == #[trigger] word_at(
        m1,
        t.salted_outputs_hash + i,
    ) by {
        let at = t.salted_outputs_hash + i;
        vstd::arithmetic::div_mod::lemma_small_mod(at as nat, P as nat);
        assert(h[i] == word_at(m3, at));
        lemma_word_at_written(m2, t.input, reversed, at);
        lemma_word_at_written(m1, t.program, d, at);
    }
    assert forall|i: int| 0 <= i < 5 implies word_at(m4, t.input + 4 - i)
        == #[trigger] t.txk_digest[i] by {
        assert(reversed[4 - i] == x[i]);
    }
}

} // verus!
