//! What the snippet that puts a claim into memory does, from beginning to end.

use vstd::arithmetic::div_mod::lemma_small_mod;
use vstd::prelude::*;

use crate::claims::generate_k2o_claim::digest_words;
use crate::claims::generate_k2o_claim::k2o_code;
use crate::claims::generate_k2o_claim::k2o_inputs;
use crate::claims::generate_k2o_claim::lemma_k2o_claim;
use crate::claims::generate_k2o_claim::lemma_k2o_claim_contents;
use crate::claims::generate_k2o_claim::DataType;
use crate::claims::generate_k2o_claim::K2oSetting;
use crate::claims::machine::run;
use crate::claims::machine::word_at;
use crate::claims::machine::Environment;
use crate::claims::machine::MachineState;
use crate::claims::machine::Op;
use crate::digest::Digest;
use crate::field::P;

verus! {

/// Let the snippet be run on a stack that ends with a transaction kernel digest, two more values
/// and a pointer to a proof collection. Let the code that makes a claim be asked for an output and
/// an input of five words each, and return pointers to four places that do not overlap; and let the
/// accessor find the salted outputs hash, whatever the memory holds. Then the stack gets a pointer
/// to the claim on top. In the claim are the program digest, the reversed transaction kernel digest
/// as its input, and the salted outputs hash as its output; and the memory is otherwise as it was
/// when there was room for the claim.
pub proof fn lemma_snippet_stores_claim(
    t: K2oSetting,
    new_claim: Seq<char>,
    program_digest: Digest,
    accessor: Seq<Op>,
    env: Environment,
)
    requires
        program_digest.canonical(),
        t.txk_digest.len() == 5,
        0 <= t.program,
        0 <= t.input,
        0 <= t.output,
        0 <= t.salted_outputs_hash,
        t.program + 5 <= P,
        t.input + 5 <= P,
        t.output + 5 <= P,
        t.salted_outputs_hash + 5 <= P,
        t.program + 5 <= t.input || t.input + 5 <= t.program,
        t.program + 5 <= t.output || t.output + 5 <= t.program,
        t.input + 5 <= t.output || t.output + 5 <= t.input,
        t.salted_outputs_hash + 5 <= t.program || t.program + 5 <= t.salted_outputs_hash,
        t.salted_outputs_hash + 5 <= t.input || t.input + 5 <= t.salted_outputs_hash,
        t.salted_outputs_hash + 5 <= t.output || t.output + 5 <= t.salted_outputs_hash,
        ({
            let d = t.txk_digest;
            let stack = t.below + seq![
                d[4],
                d[3],
                d[2],
                d[1],
                d[0],
                t.garb0,
                t.garb1,
                t.proof_collection,
            ];
            let made = stack.push(t.claim).push(t.output);
            &&& (env.call)(
                new_claim,
                MachineState { stack: stack.push(5).push(5), memory: t.memory },
            ) == (MachineState {
                stack: made.push(t.input).push(t.program),
                memory: t.memory_with_claim,
            })
            &&& forall|memory: Map<int, int>| #[trigger]
                run(
                    accessor,
                    MachineState { stack: made.push(t.proof_collection), memory },
                    env,
                ) == (MachineState { stack: made.push(t.salted_outputs_hash), memory })
        }),
    ensures
        ({
            let d = t.txk_digest;
            let stack = t.below + seq![
                d[4],
                d[3],
                d[2],
                d[1],
                d[0],
                t.garb0,
                t.garb1,
                t.proof_collection,
            ];
            let end = run(
                k2o_code(new_claim, program_digest, accessor),
                MachineState { stack, memory: t.memory },
                env,
            );
            &&& end.stack == stack.push(t.claim)
            &&& word_at(end.memory, t.program) == program_digest.e0
            &&& word_at(end.memory, t.program + 1) == program_digest.e1
            &&& word_at(end.memory, t.program + 2) == program_digest.e2
            &&& word_at(end.memory, t.program + 3) == program_digest.e3
            &&& word_at(end.memory, t.program + 4) == program_digest.e4
            &&& forall|i: int|
                #![trigger d[i]]
                0 <= i < 5 ==> word_at(end.memory, t.input + 4 - i) == d[i]
            &&& forall|i: int|
                #![trigger word_at(t.memory_with_claim, t.salted_outputs_hash + i)]
                0 <= i < 5 ==> word_at(end.memory, t.output + i) == word_at(
                    t.memory_with_claim,
                    t.salted_outputs_hash + i,
                )
            &&& forall|at: int|
                #![trigger word_at(end.memory, at)]
                0 <= at < P && !(t.program <= at < t.program + 5) && !(t.input <= at < t.input + 5)
                    && !(t.output <= at < t.output + 5) ==> word_at(end.memory, at) == word_at(
                    t.memory_with_claim,
                    at,
                )
        }),
{
    lemma_k2o_claim(t, new_claim, program_digest, accessor, env);
    lemma_k2o_claim_contents(t, program_digest);
    let words = digest_words(program_digest);
    lemma_small_mod(program_digest.e0 as nat, P as nat);
    lemma_small_mod(program_digest.e1 as nat, P as nat);
    lemma_small_mod(program_digest.e2 as nat, P as nat);
    lemma_small_mod(program_digest.e3 as nat, P as nat);
    lemma_small_mod(program_digest.e4 as nat, P as nat);
    assert(words[0] == program_digest.e0);
    assert(words[1] == program_digest.e1);
    assert(words[2] == program_digest.e2);
    assert(words[3] == program_digest.e3);
    assert(words[4] == program_digest.e4);
}

/// The snippet starts with the label by which it is called, and ends by returning to whoever
/// called.
pub proof fn lemma_snippet_can_be_called(
    new_claim: Seq<char>,
    program_digest: Digest,
    accessor: Seq<Op>,
)
    ensures
        ({
            let code = k2o_code(new_claim, program_digest, accessor);
            &&& code.len() > 1
            &&& code[0] == Op::Label(
                "tasm_neptune_transaction_proof_collection_store_k2o_claim"@,
            )
            &&& code.last() is Return
        }),
{
}

/// The values on the stack have the types of what the snippet finds there: a digest, two elements,
/// and a pointer on top.
pub proof fn lemma_snippet_inputs()
    ensures
        k2o_inputs().len() == 4,
        k2o_inputs()[0] == (DataType::Digest, "transaction_kernel_digest"@),
        k2o_inputs()[1] == (DataType::Bfe, "garb0"@),
        k2o_inputs()[2] == (DataType::Bfe, "garb1"@),
        k2o_inputs()[3] == (DataType::VoidPointer, "proof_collection_pointer"@),
{
}

} // verus!
