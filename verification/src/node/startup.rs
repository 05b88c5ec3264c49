//! What the node does when it starts, in order.

use vstd::prelude::*;

use crate::network::Network;
use crate::node::constants::OUTGOING_PEER_DISTANCE;

verus! {

/// From where, and how, the block chain is bootstrapped.
#[derive(Debug)]
pub struct Bootstrap {
    pub directory: String,
    /// The number of blocks after which they are written to disk.
    pub flush_period: usize,
    pub disable_block_validation: bool,
}

/// What the user asked for.
#[derive(Debug)]
pub struct StartupConfig {
    pub network: Network,
    /// Whether to compose or to guess.
    pub mine: bool,
    pub bootstrap: Option<Bootstrap>,
    /// The port on which to listen for peers, if the node is to accept connections.
    pub own_listen_port: Option<u16>,
    pub num_peers: usize,
    pub rpc_port: u16,
}

/// One thing that the node does when it starts.
#[derive(Debug)]
pub enum StartupStep {
    /// Creates the data directory, unless it exists.
    CreateDataDirectory,
    /// Reads the state, or makes a new one from the genesis block.
    LoadState,
    /// Reads blocks from a directory.
    BootstrapFrom { directory: String, flush_period: usize, validate_blocks: bool },
    /// Restores what is known of monitored outputs, if need be.
    RestoreMonitoredUtxos,
    /// Listens for peers on a port.
    ListenForPeers(u16),
    /// Binds to some local port on which nobody will be accepted.
    AcceptNoPeers,
    /// Connects with one of the given peers.
    ConnectToPeer { index: usize, distance: u8 },
    /// Starts to mine.
    StartMiner,
    /// Serves RPC requests on a local port.
    StartRpcServer(u16),
}

/// One thing that the node does when it starts, with its texts.
pub enum Startup {
    CreateDataDirectory,
    LoadState,
    BootstrapFrom { directory: Seq<char>, flush_period: usize, validate_blocks: bool },
    RestoreMonitoredUtxos,
    ListenForPeers(u16),
    AcceptNoPeers,
    ConnectToPeer { index: usize, distance: u8 },
    StartMiner,
    StartRpcServer(u16),
}

impl View for StartupStep {
    type V = Startup;

    open spec fn view(&self) -> Startup {
        match *self {
            StartupStep::CreateDataDirectory => Startup::CreateDataDirectory,
            StartupStep::LoadState => Startup::LoadState,
            StartupStep::BootstrapFrom { directory, flush_period, validate_blocks } => {
                Startup::BootstrapFrom { directory: directory@, flush_period, validate_blocks }
            },
            StartupStep::RestoreMonitoredUtxos => Startup::RestoreMonitoredUtxos,
            StartupStep::ListenForPeers(port) => Startup::ListenForPeers(port),
            StartupStep::AcceptNoPeers => Startup::AcceptNoPeers,
            StartupStep::ConnectToPeer { index, distance } => Startup::ConnectToPeer {
                index,
                distance,
            },
            StartupStep::StartMiner => Startup::StartMiner,
            StartupStep::StartRpcServer(port) => Startup::StartRpcServer(port),
        }
    }
}

/// Why the node does not start.
#[derive(Clone, Copy, Debug, PartialEq, Eq, Structural)]
pub enum StartupError {
    /// Automatic mining is not supported for the network.
    AutomaticMiningNotSupported,
}

impl StartupError {
    pub open spec fn spec_message(self, network: Seq<char>) -> Seq<char> {
        "Automatic mining is not supported for network "@ + network
            + ".  Try again without --compose or --guess flags."@
    }

    /// The text of the error, for a network with the given name.
    pub fn message(&self, network: &str) -> (s: String)
        ensures
            s@ == self.spec_message(network@),
    {
        "Automatic mining is not supported for network ".to_owned().concat(network).concat(
            ".  Try again without --compose or --guess flags.",
        )
    }
}

/// What the steps of a plan are.
pub open spec fn step_views(steps: Seq<StartupStep>) -> Seq<Startup> {
    steps.map_values(|s: StartupStep| s@)
}

/// The steps that open the state.
pub open spec fn state_steps(config: StartupConfig) -> Seq<Startup> {
    seq![Startup::CreateDataDirectory, Startup::LoadState] + (match config.bootstrap {
        Some(bootstrap) => seq![
            Startup::BootstrapFrom {
                directory: bootstrap.directory@,
                flush_period: bootstrap.flush_period,
                validate_blocks: !bootstrap.disable_block_validation,
            },
        ],
        None => Seq::empty(),
    }) + seq![Startup::RestoreMonitoredUtxos]
}

/// The step after which peers can or cannot connect.
pub open spec fn listen_step(config: StartupConfig) -> Startup {
    match config.own_listen_port {
        Some(port) => Startup::ListenForPeers(port),
        None => Startup::AcceptNoPeers,
    }
}

/// The steps that connect with the given peers.
pub open spec fn peer_steps(num_peers: nat) -> Seq<Startup> {
    Seq::new(
        num_peers,
        |i: int| Startup::ConnectToPeer { index: i as usize, distance: OUTGOING_PEER_DISTANCE },
    )
}

/// The step that starts the miner, if that was asked for.
pub open spec fn miner_steps(config: StartupConfig) -> Seq<Startup> {
    if config.mine {
        seq![Startup::StartMiner]
    } else {
        Seq::empty()
    }
}

/// Everything that the node does when it starts, in order.
pub open spec fn startup_steps(config: StartupConfig) -> Seq<Startup> {
    state_steps(config) + seq![listen_step(config)] + peer_steps(config.num_peers as nat)
        + miner_steps(config) + seq![Startup::StartRpcServer(config.rpc_port)]
}

/// Adds a step to a plan.
fn push_step(steps: &mut Vec<StartupStep>, step: StartupStep)
    ensures
        step_views(final(steps)@) == step_views(old(steps)@).push(step@),
{
    steps.push(step);
    assert(step_views(steps@) =~= step_views(old(steps)@).push(step@));
}

/// What the node is to do when it starts. It must not mine automatically on a network that does not
/// support it.
pub fn startup_plan(config: &StartupConfig) -> (r: Result<Vec<StartupStep>, StartupError>)
    ensures
        match r {
            Ok(steps) => {
                &&& !config.mine || config.network.performs_automated_mining
                &&& step_views(steps@) == startup_steps(*config)
            },
            Err(e) => {
                &&& config.mine && !config.network.performs_automated_mining
                &&& e == StartupError::AutomaticMiningNotSupported
            },
        },
{
    if config.mine && !config.network.performs_automated_mining {
        return Err(StartupError::AutomaticMiningNotSupported);
    }
    let mut steps: Vec<StartupStep> = Vec::new();
    assert(step_views(steps@) =~= Seq::<Startup>::empty());
    push_step(&mut steps, StartupStep::CreateDataDirectory);
    push_step(&mut steps, StartupStep::LoadState);
    match &config.bootstrap {
        Some(bootstrap) => {
            push_step(
                &mut steps,
                StartupStep::BootstrapFrom {
                    directory: bootstrap.directory.clone(),
                    flush_period: bootstrap.flush_period,
                    validate_blocks: !bootstrap.disable_block_validation,
                },
            );
        },
        None => {},
    }
    push_step(&mut steps, StartupStep::RestoreMonitoredUtxos);
    assert(step_views(steps@) =~= state_steps(*config));
    match config.own_listen_port {
        Some(port) => {
            push_step(&mut steps, StartupStep::ListenForPeers(port));
        },
        None => {
            push_step(&mut steps, StartupStep::AcceptNoPeers);
        },
    }
    let ghost before_peers = step_views(steps@);
    assert(before_peers =~= state_steps(*config) + seq![listen_step(*config)]);
    assert(before_peers =~= before_peers + peer_steps(0));
    let mut index: usize = 0;
    while index < config.num_peers
        invariant
            index <= config.num_peers,
            step_views(steps@) == before_peers + peer_steps(index as nat),
        decreases config.num_peers - index,
    {
        push_step(
            &mut steps,
            StartupStep::ConnectToPeer { index, distance: OUTGOING_PEER_DISTANCE },
        );
        assert(step_views(steps@) =~= before_peers + peer_steps((index + 1) as nat));
        index = index + 1;
    }
    if config.mine {
        push_step(&mut steps, StartupStep::StartMiner);
    }
    push_step(&mut steps, StartupStep::StartRpcServer(config.rpc_port));
    assert(step_views(steps@) =~= startup_steps(*config));
    Ok(steps)
}

/// The RPC server is started last and only once, so requests do not hang while the node starts.
pub proof fn lemma_rpc_server_starts_last(config: StartupConfig, i: int)
    requires
        0 <= i < startup_steps(config).len(),
    ensures
        startup_steps(config)[i] is StartRpcServer <==> i == startup_steps(config).len() - 1,
        startup_steps(config).last() == Startup::StartRpcServer(config.rpc_port),
{
    let steps = startup_steps(config);
    let state = state_steps(config);
    let n = state.len() as int;
    if i < n {
        assert(steps[i] == state[i]);
        if config.bootstrap is Some {
            assert(state.len() == 4);
        } else {
            assert(state.len() == 3);
        }
    } else if i == n {
        assert(steps[i] == listen_step(config));
    } else if i < n + 1 + config.num_peers {
        assert(steps[i] == peer_steps(config.num_peers as nat)[i - n - 1]);
    } else if i < steps.len() - 1 {
        assert(steps[i] == miner_steps(config)[i - n - 1 - config.num_peers]);
    }
}

/// The node reads its state before it is in touch with anybody: all peers are connected with after
/// the state was restored, and the miner starts only if that was asked for.
pub proof fn lemma_state_comes_first(config: StartupConfig, i: int)
    requires
        0 <= i < startup_steps(config).len(),
    ensures
        (startup_steps(config)[i] is ConnectToPeer || startup_steps(config)[i] is ListenForPeers
            || startup_steps(config)[i] is StartMiner) ==> i >= state_steps(config).len(),
        startup_steps(config)[i] is StartMiner ==> config.mine,
        state_steps(config).is_prefix_of(startup_steps(config)),
{
    let steps = startup_steps(config);
    let state = state_steps(config);
    let n = state.len() as int;
    assert(state =~= steps.take(n));
    if i < n {
        assert(steps[i] == state[i]);
        if config.bootstrap is Some {
            assert(state.len() == 4);
        } else {
            assert(state.len() == 3);
        }
    } else if i == n {
        assert(steps[i] == listen_step(config));
    } else if i < n + 1 + config.num_peers {
        assert(steps[i] == peer_steps(config.num_peers as nat)[i - n - 1]);
    } else if i < steps.len() - 1 {
        assert(steps[i] == miner_steps(config)[i - n - 1 - config.num_peers]);
    }
}

} // verus!
