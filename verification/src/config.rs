//! Configuration of the embedded runtime.

use vstd::prelude::*;
use crate::storage::{lemma_storage_roots_distinct, spec_storage_root, storage_root};

verus! {

/// How much of the network a node advertises that it holds.
#[derive(Clone, Copy, Debug, PartialEq, Eq, Structural)]
pub enum GossipArc {
    /// The runtime's own default: the node advertises availability.
    Advertised,
    /// The arc is clamped to empty: the node takes part passively.
    Empty,
}

/// Who may connect to an interface of the runtime.
#[derive(Clone, Copy, Debug, PartialEq, Eq, Structural)]
pub enum AllowedOrigins {
    /// Connections from any origin are accepted.
    Any,
}

/// What the runtime is started with. Built once per launch.
#[derive(Clone, Debug)]
pub struct RuntimeConfig {
    /// Directory that holds the runtime's persisted state.
    pub data_root_path: String,
    /// Port of the administrative websocket interface.
    pub admin_port: u16,
    /// Origins accepted on the administrative interface.
    pub admin_allowed_origins: AllowedOrigins,
    /// Whether the node is meant to stay online.
    pub always_online: bool,
    /// Gossip arc tuning that follows from `always_online`.
    pub gossip_arc: GossipArc,
    /// URL of the bootstrap service.
    pub bootstrap_url: String,
    /// URL of the signal relay used by the one WebRTC transport.
    pub signal_url: String,
}

/// Everything needed to start the runtime.
#[derive(Clone, Debug)]
pub struct LaunchPlan {
    /// Network seed the runtime joins.
    pub network_seed: String,
    /// Configuration of the runtime.
    pub config: RuntimeConfig,
    /// Secret that unlocks the local keystore: always empty.
    pub passphrase: Vec<u8>,
}

/// Why the runtime cannot be started.
#[derive(Clone, Copy, Debug, PartialEq, Eq, Structural)]
pub enum LaunchError {
    /// The platform names no local data directory.
    NoDataDir,
    /// No unused local port was found for the administrative interface.
    NoFreePort,
}

/// The gossip arc of a node: advertised when it stays online, empty when it
/// only runs a command and leaves.
pub open spec fn spec_gossip_arc(always_online: bool) -> GossipArc {
    if always_online {
        GossipArc::Advertised
    } else {
        GossipArc::Empty
    }
}

/// Whether `config` is the configuration that follows from the five inputs.
pub open spec fn spec_is_config_for(
    config: RuntimeConfig,
    conductor_dir: Seq<char>,
    admin_port: u16,
    always_online: bool,
    bootstrap_url: Seq<char>,
    signal_url: Seq<char>,
) -> bool {
    &&& config.data_root_path@ == conductor_dir
    &&& config.admin_port == admin_port
    &&& config.admin_allowed_origins == AllowedOrigins::Any
    &&& config.always_online == always_online
    &&& config.gossip_arc == spec_gossip_arc(always_online)
    &&& config.bootstrap_url@ == bootstrap_url
    &&& config.signal_url@ == signal_url
}

/// Whether `plan` is the launch of `network_seed` below the data directory
/// `data_dir`: its storage root is that of the seed, its passphrase is empty,
/// and its configuration follows from the remaining inputs.
pub open spec fn spec_is_plan_for(
    plan: LaunchPlan,
    data_dir: Seq<char>,
    admin_port: u16,
    network_seed: Seq<char>,
    always_online: bool,
    bootstrap_url: Seq<char>,
    signal_url: Seq<char>,
) -> bool {
    &&& plan.network_seed@ == network_seed
    &&& plan.passphrase@.len() == 0
    &&& spec_is_config_for(
        plan.config,
        spec_storage_root(data_dir, network_seed),
        admin_port,
        always_online,
        bootstrap_url,
        signal_url,
    )
}

/// Builds the runtime's configuration from its inputs alone.
pub fn conductor_config(
    conductor_dir: &str,
    admin_port: u16,
    always_online: bool,
    bootstrap_url: String,
    signal_url: String,
) -> (config: RuntimeConfig)
    ensures
        spec_is_config_for(
            config,
            conductor_dir@,
            admin_port,
            always_online,
            bootstrap_url@,
            signal_url@,
        ),
{
    let gossip_arc = if always_online {
        GossipArc::Advertised
    } else {
        GossipArc::Empty
    };
    RuntimeConfig {
        data_root_path: conductor_dir.to_owned(),
        admin_port,
        admin_allowed_origins: AllowedOrigins::Any,
        always_online,
        gossip_arc,
        bootstrap_url,
        signal_url,
    }
}

/// Plans a launch. `data_dir` is the platform's local data directory, if it
/// names one, and `picked_port` an unused local port, if one was found.
///
/// The launch fails without a data directory, and otherwise without a port.
/// In every other case the plan holds the storage root of the seed below the
/// data directory, the configuration built from it, and an empty passphrase.
pub fn launch_holochain(
    data_dir: Option<String>,
    picked_port: Option<u16>,
    network_seed: String,
    always_online: bool,
    bootstrap_url: String,
    signal_url: String,
) -> (r: Result<LaunchPlan, LaunchError>)
    ensures
        data_dir is None ==> r == Err::<LaunchPlan, LaunchError>(LaunchError::NoDataDir),
        data_dir is Some && picked_port is None ==> r == Err::<LaunchPlan, LaunchError>(
            LaunchError::NoFreePort,
        ),
        data_dir is Some && picked_port is Some ==> r is Ok && spec_is_plan_for(
            r->Ok_0,
            data_dir->Some_0@,
            picked_port->Some_0,
            network_seed@,
            always_online,
            bootstrap_url@,
            signal_url@,
        ),
{
    let dir = match data_dir {
        None => {
            return Err(LaunchError::NoDataDir);
        },
        Some(dir) => dir,
    };
    let admin_port = match picked_port {
        None => {
            return Err(LaunchError::NoFreePort);
        },
        Some(port) => port,
    };
    let conductor_dir = storage_root(dir.as_str(), network_seed.as_str());
    let config = conductor_config(
        conductor_dir.as_str(),
        admin_port,
        always_online,
        bootstrap_url,
        signal_url,
    );
    Ok(LaunchPlan { network_seed, config, passphrase: Vec::new() })
}

/// Two launches below one data directory with different network seeds keep
/// their state in different places, whatever else they are started with.
pub proof fn lemma_launches_do_not_share_storage(
    first: LaunchPlan,
    second: LaunchPlan,
    data_dir: Seq<char>,
)
    requires
        first.network_seed@ != second.network_seed@,
        first.config.data_root_path@ == spec_storage_root(data_dir, first.network_seed@),
        second.config.data_root_path@ == spec_storage_root(data_dir, second.network_seed@),
    ensures
        first.config.data_root_path@ != second.config.data_root_path@,
{
    lemma_storage_roots_distinct(data_dir, first.network_seed@, second.network_seed@);
}

impl LaunchError {
    /// The text shown to the operator.
    pub open spec fn spec_message(self) -> Seq<char> {
        match self {
            LaunchError::NoDataDir => "Could not get data local dir"@,
            LaunchError::NoFreePort => "No ports free"@,
        }
    }

    /// The text shown to the operator.
    pub fn message(&self) -> (text: String)
        ensures
            text@ == self.spec_message(),
    {
        match self {
            LaunchError::NoDataDir => "Could not get data local dir".to_owned(),
            LaunchError::NoFreePort => "No ports free".to_owned(),
        }
    }
}

} // verus!
