//! A stack machine, as far as the snippets need it.

use vstd::prelude::*;

use crate::field::P;

verus! {

/// One line of assembly.
#[derive(Debug)]
pub enum Instruction {
    /// The name by which what follows can be called.
    Label(String),
    /// Puts a value on the stack.
    Push(u64),
    /// Takes values off the stack.
    Pop(u64),
    /// Puts a copy of the value at some depth on the stack.
    Dup(u64),
    /// Adds a constant to the topmost value.
    AddI(u64),
    /// Replaces the address on top of the stack by as many words, which lie at that address and
    /// before it, and then by the address before them.
    ReadMem(u64),
    /// Takes an address and as many words off the stack, writes them there, and puts the address
    /// after them on the stack.
    WriteMem(u64),
    /// Calls what follows a label.
    Call(String),
    /// Returns to whoever called.
    Return,
    /// Any other instruction, in assembly.
    Verbatim(String),
}

/// One line of assembly, with its texts.
pub enum Op {
    Label(Seq<char>),
    Push(u64),
    Pop(u64),
    Dup(u64),
    AddI(u64),
    ReadMem(u64),
    WriteMem(u64),
    Call(Seq<char>),
    Return,
    Verbatim(Seq<char>),
}

impl View for Instruction {
    type V = Op;

    open spec fn view(&self) -> Op {
        match *self {
            Instruction::Label(name) => Op::Label(name@),
            Instruction::Push(value) => Op::Push(value),
            Instruction::Pop(n) => Op::Pop(n),
            Instruction::Dup(depth) => Op::Dup(depth),
            Instruction::AddI(value) => Op::AddI(value),
            Instruction::ReadMem(n) => Op::ReadMem(n),
            Instruction::WriteMem(n) => Op::WriteMem(n),
            Instruction::Call(name) => Op::Call(name@),
            Instruction::Return => Op::Return,
            Instruction::Verbatim(text) => Op::Verbatim(text@),
        }
    }
}

/// What the lines of a piece of assembly are.
pub open spec fn ops(code: Seq<Instruction>) -> Seq<Op> {
    code.map_values(|i: Instruction| i@)
}

/// The state of the machine. The top of the stack is the last value.
#[verifier::ext_equal]
pub struct MachineState {
    pub stack: Seq<int>,
    pub memory: Map<int, int>,
}

/// What calls, and instructions that are given in assembly only, do to the state.
pub struct Environment {
    pub call: spec_fn(Seq<char>, MachineState) -> MachineState,
    pub verbatim: spec_fn(Seq<char>, MachineState) -> MachineState,
}

/// The word at an address. Where nothing was written, it is zero.
pub open spec fn word_at(memory: Map<int, int>, address: int) -> int {
    if memory.contains_key(address) {
        memory[address]
    } else {
        0
    }
}

/// The words at an address and before it, in that order.
pub open spec fn read_words(memory: Map<int, int>, address: int, n: nat) -> Seq<int>
    decreases n,
{
    if n == 0 {
        Seq::empty()
    } else {
        seq![word_at(memory, address)] + read_words(
            memory,
            (address - 1) % (P as int),
            (n - 1) as nat,
        )
    }
}

/// The memory after words were written to an address and the following ones.
pub open spec fn write_words(memory: Map<int, int>, address: int, words: Seq<int>) -> Map<int, int>
    decreases words.len(),
{
    if words.len() == 0 {
        memory
    } else {
        write_words(
            memory.insert(address, words[0]),
            (address + 1) % (P as int),
            words.drop_first(),
        )
    }
}

/// The topmost values of a stack, the top first.
pub open spec fn topmost(stack: Seq<int>, n: nat) -> Seq<int> {
    Seq::new(n, |i: int| stack[stack.len() - 1 - i])
}

/// What one instruction does to the state.
pub open spec fn step(op: Op, s: MachineState, env: Environment) -> MachineState {
    let top = s.stack.last();
    let height = s.stack.len() as int;
    match op {
        Op::Label(_) => s,
        Op::Push(value) => MachineState { stack: s.stack.push(value as int % P as int), ..s },
        Op::Pop(n) => MachineState { stack: s.stack.take(height - n), ..s },
        Op::Dup(depth) => MachineState { stack: s.stack.push(s.stack[height - 1 - depth]), ..s },
        Op::AddI(value) => MachineState {
            stack: s.stack.drop_last().push((top + value) % (P as int)),
            ..s
        },
        Op::ReadMem(n) => MachineState {
            stack: s.stack.drop_last() + read_words(s.memory, top, n as nat) + seq![
                (top - n) % (P as int),
            ],
            ..s
        },
        Op::WriteMem(n) => MachineState {
            stack: s.stack.take(height - 1 - n).push((top + n) % (P as int)),
            memory: write_words(s.memory, top, topmost(s.stack.drop_last(), n as nat)),
        },
        Op::Call(name) => (env.call)(name, s),
        Op::Return => s,
        Op::Verbatim(text) => (env.verbatim)(text, s),
    }
}

/// What a piece of assembly does to the state.
pub open spec fn run(code: Seq<Op>, s: MachineState, env: Environment) -> MachineState
    decreases code.len(),
{
    if code.len() == 0 {
        s
    } else {
        step(code.last(), run(code.drop_last(), s, env), env)
    }
}

/// An instruction that comes after others acts on what they left.
pub broadcast proof fn lemma_run_push(code: Seq<Op>, op: Op, s: MachineState, env: Environment)
    ensures
        #[trigger] run(code.push(op), s, env) == step(op, run(code, s, env), env),
{
    assert(code.push(op).drop_last() =~= code);
}

/// Assembly that comes after other assembly acts on what that left.
pub proof fn lemma_run_append(a: Seq<Op>, b: Seq<Op>, s: MachineState, env: Environment)
    ensures
        run(a + b, s, env) == run(b, run(a, s, env), env),
    decreases b.len(),
{
    if b.len() == 0 {
        assert(a + b =~= a);
    } else {
        assert((a + b).drop_last() =~= a + b.drop_last());
        lemma_run_append(a, b.drop_last(), s, env);
    }
}

/// Words can be read back from where they were written, if the addresses do not wrap around.
pub proof fn lemma_word_at_written(memory: Map<int, int>, address: int, words: Seq<int>, at: int)
    requires
        0 <= address,
        address + words.len() <= P,
        0 <= at < P,
    ensures
        word_at(write_words(memory, address, words), at) == if address <= at < address
            + words.len() {
            words[at - address]
        } else {
            word_at(memory, at)
        },
    decreases words.len(),
{
    if words.len() > 0 {
        let rest = words.drop_first();
        let next = (address + 1) % (P as int);
        let first = memory.insert(address, words[0]);
        if rest.len() > 0 {
            vstd::arithmetic::div_mod::lemma_small_mod((address + 1) as nat, P as nat);
            lemma_word_at_written(first, next, rest, at);
        } else {
            assert(write_words(memory, address, words) == write_words(first, next, rest));
            assert(write_words(first, next, rest) == first);
        }
    }
}

} // verus!
