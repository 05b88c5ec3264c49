//! Views leave nothing out: whatever is said of a view is said of all that it is a view of.

use vstd::prelude::*;

use crate::block::claim_views;
use crate::block::rewards::utxo_views;
use crate::block::Claim;
use crate::claims::generate_k2o_claim::value_views;
use crate::claims::generate_k2o_claim::DataType;
use crate::claims::machine::ops;
use crate::claims::machine::Instruction;
use crate::claims::machine::Op;
use crate::json_rpc::router::texts;
use crate::json_rpc::router::Route;
use crate::node::startup::step_views;
use crate::node::startup::Startup;
use crate::node::startup::StartupStep;
use crate::transaction::messages;
use crate::transaction::removal_views;
use crate::transaction::MutatorSetAccumulator;
use crate::transaction::MutatorSetUpdate;
use crate::transaction::PublicAnnouncement;
use crate::transaction::RemovalRecord;
use crate::transaction::Utxo;

verus! {

/// Each removal record of a list is in the view of the list, with its indices and chunks.
pub proof fn lemma_removal_records_are_complete(records: Seq<RemovalRecord>, i: int)
    requires
        0 <= i < records.len(),
    ensures
        removal_views(records).len() == records.len(),
        removal_views(records)[i].absolute_indices == records[i].absolute_indices@,
        removal_views(records)[i].target_chunks == records[i].target_chunks@,
{
}

/// Each announcement of a list is in the view of the list.
pub proof fn lemma_announcements_are_complete(announcements: Seq<PublicAnnouncement>, i: int)
    requires
        0 <= i < announcements.len(),
    ensures
        messages(announcements).len() == announcements.len(),
        messages(announcements)[i] == announcements[i].message@,
{
}

/// Each claim of a list is in the view of the list, with all that it states.
pub proof fn lemma_claims_are_complete(claims: Seq<Claim>, i: int)
    requires
        0 <= i < claims.len(),
    ensures
        claim_views(claims).len() == claims.len(),
        claim_views(claims)[i].program_digest == claims[i].program_digest,
        claim_views(claims)[i].version == claims[i].version,
        claim_views(claims)[i].input == claims[i].input@,
        claim_views(claims)[i].output == claims[i].output@,
{
}

/// Each output of a list is in the view of the list, with its lock and its coins.
pub proof fn lemma_outputs_are_complete(utxos: Seq<Utxo>, i: int)
    requires
        0 <= i < utxos.len(),
    ensures
        utxo_views(utxos).len() == utxos.len(),
        utxo_views(utxos)[i].lock_script_hash == utxos[i].lock_script_hash,
        utxo_views(utxos)[i].coins == utxos[i].coins@,
{
}

/// The view of an update holds all that is removed and added, and the view of an accumulator its
/// digest and its encoding.
pub proof fn lemma_updates_are_complete(
    update: MutatorSetUpdate,
    accumulator: MutatorSetAccumulator,
    i: int,
)
    ensures
        update@.additions == update.additions@,
        update@.removals.len() == update.removals@.len(),
        0 <= i < update.removals@.len() ==> update@.removals[i].absolute_indices
            == update.removals@[i].absolute_indices@ && update@.removals[i].target_chunks
            == update.removals@[i].target_chunks@,
        accumulator@.digest == accumulator.digest,
        accumulator@.encoding == accumulator.encoding@,
{
}

/// Each step of a plan is in the view of the plan, and is what its name says.
pub proof fn lemma_steps_are_complete(steps: Seq<StartupStep>, i: int)
    requires
        0 <= i < steps.len(),
    ensures
        step_views(steps).len() == steps.len(),
        steps[i] is CreateDataDirectory <==> step_views(steps)[i] is CreateDataDirectory,
        steps[i] is LoadState <==> step_views(steps)[i] is LoadState,
        steps[i] is RestoreMonitoredUtxos <==> step_views(steps)[i] is RestoreMonitoredUtxos,
        steps[i] is AcceptNoPeers <==> step_views(steps)[i] is AcceptNoPeers,
        steps[i] is StartMiner <==> step_views(steps)[i] is StartMiner,
        steps[i] is BootstrapFrom <==> step_views(steps)[i] is BootstrapFrom,
        steps[i] matches StartupStep::BootstrapFrom { directory, flush_period, validate_blocks }
            ==> step_views(steps)[i] == (Startup::BootstrapFrom {
            directory: directory@,
            flush_period,
            validate_blocks,
        }),
        steps[i] is ConnectToPeer <==> step_views(steps)[i] is ConnectToPeer,
        steps[i] matches StartupStep::ConnectToPeer { index, distance } ==> step_views(steps)[i]
            == (Startup::ConnectToPeer { index, distance }),
        steps[i] is ListenForPeers <==> step_views(steps)[i] is ListenForPeers,
        steps[i] matches StartupStep::ListenForPeers(port) ==> step_views(steps)[i]
            == Startup::ListenForPeers(port),
        steps[i] is StartRpcServer <==> step_views(steps)[i] is StartRpcServer,
        steps[i] matches StartupStep::StartRpcServer(port) ==> step_views(steps)[i]
            == Startup::StartRpcServer(port),
{
}

/// Each instruction of a piece of assembly is in the view of the assembly, with its argument.
pub proof fn lemma_instructions_are_complete(code: Seq<Instruction>, i: int)
    requires
        0 <= i < code.len(),
    ensures
        ops(code).len() == code.len(),
        code[i] is Return ==> ops(code)[i] is Return,
        code[i] matches Instruction::Push(x) ==> ops(code)[i] == Op::Push(x),
        code[i] matches Instruction::Pop(x) ==> ops(code)[i] == Op::Pop(x),
        code[i] matches Instruction::Dup(x) ==> ops(code)[i] == Op::Dup(x),
        code[i] matches Instruction::AddI(x) ==> ops(code)[i] == Op::AddI(x),
        code[i] matches Instruction::ReadMem(x) ==> ops(code)[i] == Op::ReadMem(x),
        code[i] matches Instruction::WriteMem(x) ==> ops(code)[i] == Op::WriteMem(x),
        code[i] matches Instruction::Label(name) ==> ops(code)[i] == Op::Label(name@),
        code[i] matches Instruction::Call(name) ==> ops(code)[i] == Op::Call(name@),
        code[i] matches Instruction::Verbatim(text) ==> ops(code)[i] == Op::Verbatim(text@),
{
}

/// The view of a route holds all of its names; and the views of texts and of values on the stack
/// hold all of them.
pub proof fn lemma_names_are_complete(
    route: Route,
    list: Seq<String>,
    values: Seq<(DataType, String)>,
    i: int,
)
    ensures
        route@.method_name == route.method_name@,
        route@.request_type == route.request_type@,
        route@.response_type == route.response_type@,
        route@.call_fn == route.call_fn@,
        texts(list).len() == list.len(),
        0 <= i < list.len() ==> texts(list)[i] == list[i]@,
        value_views(values).len() == values.len(),
        0 <= i < values.len() ==> value_views(values)[i] == (values[i].0, values[i].1@),
{
}

} // verus!
