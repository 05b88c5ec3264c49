//! What the node does when it starts, and what it says.

use vstd::prelude::*;

use crate::json_rpc::ops::Namespaces;
use crate::json_rpc::ops::RpcMethods;
use crate::json_rpc::router::is_namespace_attr;
use crate::json_rpc::router::spec_route;
use crate::json_rpc::router::VariantAttr;
use crate::node::lock_events::spec_lock_event_message;
use crate::node::lock_events::spec_slow_lock_checks;
use crate::node::lock_events::spec_threshold_variable;
use crate::node::lock_events::LockEventFacts;
use crate::node::lock_events::LockEventReport;
use crate::node::lock_events::ReadOrWrite;
use crate::node::lock_events::SlowLockCheck;
use crate::node::scope_duration::duration_message;
use crate::node::scope_duration::slow_message;
use crate::node::startup::startup_steps;
use crate::node::startup::state_steps;
use crate::node::startup::Startup;
use crate::node::startup::StartupConfig;
use crate::node::startup::StartupError;
use crate::node::thread_id::digits_in;
use crate::node::thread_id::number_of;

verus! {

/// What the node does at which point when it starts. It reads its state, from a bootstrap directory
/// if there is one, and restores it; it listens, or does not; it connects with every given peer
/// once; it mines, if asked; and then it serves requests.
pub proof fn lemma_startup(config: StartupConfig, peer: int)
    ensures
        ({
            let steps = startup_steps(config);
            let b: int = if config.bootstrap is Some {
                1
            } else {
                0
            };
            let m: int = if config.mine {
                1
            } else {
                0
            };
            let n = config.num_peers as int;
            &&& steps.len() == 5 + b + n + m
            &&& steps[0] is CreateDataDirectory
            &&& steps[1] is LoadState
            &&& config.bootstrap matches Some(bootstrap) ==> {
                &&& steps[2] is BootstrapFrom
                &&& steps[2]->directory == bootstrap.directory@
                &&& steps[2]->flush_period == bootstrap.flush_period
                &&& steps[2]->validate_blocks != bootstrap.disable_block_validation
            }
            &&& steps[2 + b] is RestoreMonitoredUtxos
            &&& config.own_listen_port matches Some(port) ==> steps[3 + b]
                == Startup::ListenForPeers(port)
            &&& config.own_listen_port is None ==> steps[3 + b] is AcceptNoPeers
            &&& 0 <= peer < n ==> {
                &&& steps[4 + b + peer] is ConnectToPeer
                &&& steps[4 + b + peer]->index == peer
                &&& steps[4 + b + peer]->distance == 1
            }
            &&& config.mine ==> steps[4 + b + n] is StartMiner
            &&& steps[4 + b + n + m] == Startup::StartRpcServer(config.rpc_port)
        }),
{
    let state = state_steps(config);
    let boot = match config.bootstrap {
        Some(bootstrap) => seq![
            Startup::BootstrapFrom {
                directory: bootstrap.directory@,
                flush_period: bootstrap.flush_period,
                validate_blocks: !bootstrap.disable_block_validation,
            },
        ],
        None => Seq::empty(),
    };
    let start = seq![Startup::CreateDataDirectory, Startup::LoadState];
    assert(start[0] is CreateDataDirectory && start[1] is LoadState);
    assert(state =~= start + boot + seq![Startup::RestoreMonitoredUtxos]);
    assert(state[0] == start[0] && state[1] == start[1]);
    assert(state.last() is RestoreMonitoredUtxos);
    if config.bootstrap is Some {
        assert(state[2] == boot[0]);
    }
}

/// The durations that are compared with a threshold: that of acquiring the lock exactly if it was
/// just acquired and both points in time are known, before that of holding it.
pub proof fn lemma_slow_lock_checks(facts: LockEventFacts)
    ensures
        ({
            let checks = spec_slow_lock_checks(facts);
            let held = facts.has_acquire_at && facts.has_location;
            let acquired = held && facts.is_acquire && facts.has_try_acquire_at;
            &&& checks.contains(SlowLockCheck::Held) <==> held
            &&& checks.contains(SlowLockCheck::Acquire) <==> acquired
            &&& acquired ==> checks.len() == 2 && checks[0] is Acquire && checks[1] is Held
            &&& held && !acquired ==> checks.len() == 1
            &&& !held ==> checks.len() == 0
        }),
{
    let checks = spec_slow_lock_checks(facts);
    let held = facts.has_acquire_at && facts.has_location;
    let acquired = held && facts.is_acquire && facts.has_try_acquire_at;
    if acquired {
        assert(checks[0] is Acquire && checks[1] is Held);
    } else if held {
        assert(checks[0] is Held);
    }
}

/// The name of the environment variable tells what is limited, and for which kind of lock.
pub proof fn lemma_threshold_variable(kind: ReadOrWrite, check: SlowLockCheck)
    ensures
        spec_threshold_variable(kind, check) == "LOG_SLOW_"@ + (match kind {
            ReadOrWrite::Read => "READ"@,
            ReadOrWrite::Write => "WRITE"@,
        }) + "_LOCK"@ + (match check {
            SlowLockCheck::Acquire => "_ACQUIRE"@,
            SlowLockCheck::Held => ""@,
        }) + "_THRESHOLD"@,
{
    reveal_strlit("LOG_SLOW_");
    reveal_strlit("READ");
    reveal_strlit("WRITE");
    reveal_strlit("_LOCK");
    reveal_strlit("_ACQUIRE");
    reveal_strlit("");
    reveal_strlit("_THRESHOLD");
    match (kind, check) {
        (ReadOrWrite::Read, SlowLockCheck::Acquire) => {
            reveal_strlit("LOG_SLOW_READ_LOCK_ACQUIRE_THRESHOLD");
            assert("LOG_SLOW_READ_LOCK_ACQUIRE_THRESHOLD"@ =~= "LOG_SLOW_"@ + "READ"@ + "_LOCK"@
                + "_ACQUIRE"@ + "_THRESHOLD"@);
        },
        (ReadOrWrite::Write, SlowLockCheck::Acquire) => {
            reveal_strlit("LOG_SLOW_WRITE_LOCK_ACQUIRE_THRESHOLD");
            assert("LOG_SLOW_WRITE_LOCK_ACQUIRE_THRESHOLD"@ =~= "LOG_SLOW_"@ + "WRITE"@ + "_LOCK"@
                + "_ACQUIRE"@ + "_THRESHOLD"@);
        },
        (ReadOrWrite::Read, SlowLockCheck::Held) => {
            reveal_strlit("LOG_SLOW_READ_LOCK_THRESHOLD");
            assert("LOG_SLOW_READ_LOCK_THRESHOLD"@ =~= "LOG_SLOW_"@ + "READ"@ + "_LOCK"@ + ""@
                + "_THRESHOLD"@);
        },
        (ReadOrWrite::Write, SlowLockCheck::Held) => {
            reveal_strlit("LOG_SLOW_WRITE_LOCK_THRESHOLD");
            assert("LOG_SLOW_WRITE_LOCK_THRESHOLD"@ =~= "LOG_SLOW_"@ + "WRITE"@ + "_LOCK"@ + ""@
                + "_THRESHOLD"@);
        },
    }
}

/// Messages about durations say what took how long, and where; and what the limit is, if there is
/// one.
pub proof fn lemma_duration_messages(
    description: Seq<char>,
    secs: Seq<char>,
    threshold_secs: Seq<char>,
    location: Seq<char>,
)
    ensures
        duration_message(description, secs, location) == "executed "@ + description + " in "@ + secs
            + " secs.  location: "@ + location,
        slow_message(description, secs, threshold_secs, location) == "executed "@ + description
            + " in "@ + secs + " secs.  exceeds slow fn threshold of "@ + threshold_secs
            + " secs.  location: "@ + location,
{
}

/// A message about a lock event has a question mark for each name that is not known, and a line for
/// each of the place and the two durations that are.
pub proof fn lemma_lock_event_message(report: LockEventReport)
    ensures
        spec_lock_event_message(report) == report.event_type@ + " tokio lock `"@ + (
        match report.lock_name {
            Some(t) => t@,
            None => "?"@,
        }) + "` of type `"@ + report.lock_type@ + "` for `"@ + report.acquisition@
            + "` by\n\t|-- thread "@ + report.thread_id@ + ", (`"@ + (match report.thread_name {
            Some(t) => t@,
            None => "?"@,
        }) + "`)\n\t|-- tokio task "@ + (match report.tokio_task_id {
            Some(t) => t@,
            None => "?"@,
        }) + (match report.location {
            Some(t) => "\n\t|-- acquirer: "@ + t@,
            None => Seq::empty(),
        }) + (match report.waited_secs {
            Some(t) => "\n\t|-- waited for acquire: "@ + t@ + " secs"@,
            None => Seq::empty(),
        }) + (match report.held_secs {
            Some(t) => "\n\t|-- held: "@ + t@ + " secs"@,
            None => Seq::empty(),
        }) + "\n\t|--"@,
{
    match report.location {
        Some(t) => {
            assert("\n\t|-- acquirer: "@ + t@ + Seq::empty() =~= "\n\t|-- acquirer: "@ + t@);
        },
        None => {},
    }
}

/// The message about automatic mining names the network.
pub proof fn lemma_startup_error(error: StartupError, network: Seq<char>)
    ensures
        error.spec_message(network) == "Automatic mining is not supported for network "@ + network
            + ".  Try again without --compose or --guess flags."@,
{
}

/// Each character of a text adds itself to the digits in it, if it is one.
pub proof fn lemma_digits_in_text(text: Seq<char>, c: char)
    ensures
        digits_in(Seq::empty()) == Seq::<char>::empty(),
        '0' <= c <= '9' ==> digits_in(text.push(c)) == digits_in(text).push(c),
        !('0' <= c <= '9') ==> digits_in(text.push(c)) == digits_in(text),
{
    reveal(Seq::filter);
    assert(text.push(c).drop_last() =~= text);
}

/// Each further digit makes a number ten times as large, and adds its own value.
pub proof fn lemma_number_of_digits(digits: Seq<char>, c: char)
    ensures
        number_of(Seq::empty()) == 0,
        number_of(digits.push(c)) == 10 * number_of(digits) + (c as int - '0' as int),
{
    assert(digits.push(c).drop_last() =~= digits);
}

/// The names for a method.
pub proof fn lemma_route_names(
    name: Seq<char>,
    snake_namespace: Seq<char>,
    camel_name: Seq<char>,
    snake_name: Seq<char>,
)
    ensures
        ({
            let route = spec_route(name, snake_namespace, camel_name, snake_name);
            &&& route.method_name == snake_namespace + "_"@ + camel_name
            &&& route.request_type == name + "Request"@
            &&& route.response_type == name + "Response"@
            &&& route.call_fn == snake_name + "_call"@
        }),
{
}

/// The first attribute that is named so is the one that gives the namespace, and no other one does.
pub proof fn lemma_first_namespace_attribute(attrs: Seq<VariantAttr>, k: int, i: int)
    requires
        is_namespace_attr(attrs, k),
    ensures
        0 <= k < attrs.len(),
        attrs[k].name@ == "namespace"@,
        0 <= i < attrs.len() && attrs[i].name@ == "namespace"@ ==> k <= i,
        is_namespace_attr(attrs, i) ==> i == k,
{
    if is_namespace_attr(attrs, i) {
        if i < k {
            assert(attrs[i].name@ != "namespace"@);
        } else if k < i {
            assert(attrs[k].name@ != "namespace"@);
        }
    }
}

/// Every method is asked for by its namespace and its own name.
pub proof fn lemma_methods(method: RpcMethods)
    ensures
        method is GetHeight ==> method.spec_namespace() == Namespaces::Chain
            && method.spec_method_name() == "chain"@ + "_"@ + "getHeight"@,
{
    reveal_strlit("chain");
    reveal_strlit("_");
    reveal_strlit("getHeight");
    reveal_strlit("chain_getHeight");
    assert("chain_getHeight"@ =~= "chain"@ + "_"@ + "getHeight"@);
}

} // verus!
