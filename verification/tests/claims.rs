use neptune::claims::generate_k2o_claim::{DataType, GenerateK2oClaim};
use neptune::claims::machine::Instruction;
use neptune::digest::Digest;
use std::collections::HashMap;
use triton_isa::instruction::{AnInstruction, LabelledInstruction};
use triton_isa::program::Program;
use twenty_first::prelude::BFieldElement;

fn assembly(code: &[Instruction]) -> String {
    let line = |i: &Instruction| match i {
        Instruction::Label(name) => format!("{name}:"),
        Instruction::Push(value) => format!("push {value}"),
        Instruction::Pop(n) => format!("pop {n}"),
        Instruction::Dup(depth) => format!("dup {depth}"),
        Instruction::AddI(value) => format!("addi {value}"),
        Instruction::ReadMem(n) => format!("read_mem {n}"),
        Instruction::WriteMem(n) => format!("write_mem {n}"),
        Instruction::Call(name) => format!("call {name}"),
        Instruction::Return => "return".to_string(),
        Instruction::Verbatim(text) => text.clone(),
    };
    code.iter().map(line).collect::<Vec<_>>().join("\n")
}

fn bfe(value: u64) -> BFieldElement {
    BFieldElement::new(value)
}

/// Runs programs, as far as the snippet needs it.
struct Machine {
    stack: Vec<BFieldElement>,
    ram: HashMap<BFieldElement, BFieldElement>,
}

impl Machine {
    fn run(&mut self, code: &[LabelledInstruction]) {
        let mut returns = vec![];
        let mut at = 0;
        loop {
            let instruction = match &code[at] {
                LabelledInstruction::Instruction(instruction) => instruction,
                _ => {
                    at += 1;
                    continue;
                }
            };
            at += 1;
            match instruction {
                AnInstruction::Push(value) => self.stack.push(*value),
                AnInstruction::Pop(n) => {
                    for _ in 0..n.num_words() {
                        self.stack.pop().unwrap();
                    }
                }
                AnInstruction::Dup(depth) => {
                    let from = self.stack.len() - 1 - usize::from(*depth);
                    self.stack.push(self.stack[from]);
                }
                AnInstruction::AddI(value) => *self.stack.last_mut().unwrap() += *value,
                AnInstruction::ReadMem(n) => {
                    let mut address = self.stack.pop().unwrap();
                    for _ in 0..n.num_words() {
                        self.stack.push(self.ram.get(&address).copied().unwrap_or(bfe(0)));
                        address.decrement();
                    }
                    self.stack.push(address);
                }
                AnInstruction::WriteMem(n) => {
                    let mut address = self.stack.pop().unwrap();
                    for _ in 0..n.num_words() {
                        self.ram.insert(address, self.stack.pop().unwrap());
                        address.increment();
                    }
                    self.stack.push(address);
                }
                AnInstruction::Call(name) => {
                    returns.push(at);
                    let is_target = |i: &LabelledInstruction| {
                        matches!(i, LabelledInstruction::Label(label) if label == name)
                    };
                    at = code.iter().position(is_target).unwrap();
                }
                AnInstruction::Return => at = returns.pop().unwrap(),
                AnInstruction::Halt => return,
                _ => panic!("the snippet does not need {instruction}"),
            }
        }
    }
}

#[test]
fn unit_test() {
    let program_digest = Digest::new([11, 12, 13, 14, 15]);
    // The salted outputs hash lies three words after the pointer.
    let accessor = vec![Instruction::Verbatim("addi 3".to_string())];
    let snippet = GenerateK2oClaim {};
    let code = snippet.code(&"new_claim".to_string(), &program_digest, &accessor);

    // Room for the claim is at fixed addresses: the claim, its output, its input, and its program
    // digest.
    let source = format!(
        "push 25 push 24 push 23 push 22 push 21 push 31 push 32 push 500
        call {}
        halt
        new_claim:
            pop 2 push 1000 push 1002 push 1009 push 1015
            return
        {}",
        snippet.entrypoint(),
        assembly(&code),
    );
    let program = Program::from_code(&source).unwrap();
    let mut machine = Machine {
        stack: vec![],
        ram: (0..5).map(|i| (bfe(503 + i), bfe(41 + i))).collect(),
    };
    machine.run(&program.labelled_instructions());

    let top = |n: usize| -> Vec<u64> {
        machine.stack.iter().rev().take(n).map(|e| e.value()).collect()
    };
    assert_eq!(vec![1000, 500, 32, 31, 21, 22, 23, 24, 25], top(9));
    let words = |address: u64| -> Vec<u64> {
        (0..5).map(|i| machine.ram[&bfe(address + i)].value()).collect()
    };
    assert_eq!(vec![11, 12, 13, 14, 15], words(1015));
    assert_eq!(vec![25, 24, 23, 22, 21], words(1009));
    assert_eq!(vec![41, 42, 43, 44, 45], words(1002));
    assert_eq!(9, machine.stack.len());
    assert_eq!(20, machine.ram.len());
}

#[test]
fn signature_names_what_is_on_the_stack() {
    let snippet = GenerateK2oClaim {};
    let inputs = snippet.inputs();
    assert_eq!(4, inputs.len());
    assert_eq!((DataType::Digest, "transaction_kernel_digest".to_string()), inputs[0]);
    assert_eq!((DataType::Bfe, "garb0".to_string()), inputs[1]);
    assert_eq!((DataType::Bfe, "garb1".to_string()), inputs[2]);
    assert_eq!((DataType::VoidPointer, "proof_collection_pointer".to_string()), inputs[3]);
    let outputs = snippet.outputs();
    assert_eq!(inputs[..], outputs[..4]);
    assert_eq!((DataType::VoidPointer, "claim".to_string()), outputs[4]);
    assert_eq!(
        "tasm_neptune_transaction_proof_collection_store_k2o_claim",
        snippet.entrypoint()
    );
}
