//! The builder of the Raft system: a Raft node, its network and its endpoint.
use vstd::prelude::*;
use crate::NodeInfo;
use crate::config::{Configuration, ConfigurationError};
use crate::network::messages::NetworkError;

verus! {

/// Errors in building or starting the Raft system.
#[derive(Debug)]
pub enum RaftSystemError {
    /// Raft initialization failed; its message.
    RaftInitializationError(String),
    /// The system is misconfigured.
    Configuration(ConfigurationError),
    /// The host network failed.
    NetworkError(NetworkError),
    /// An actor send failed; the mailbox's message.
    MailboxError(String),
    /// The builder was not set up before building.
    BuilderError(String),
    /// Any other system error.
    Unknown(String),
}

/// What building the Raft system needs: the host id, and which of the network, the
/// configuration, the storage factory and the endpoint data are provided. The host holds the
/// network address, the storage factory and the endpoint data themselves.
#[derive(Debug)]
pub struct RaftSystemBuilder {
    pub id: u64,
    pub network_set: bool,
    pub config: Option<Configuration>,
    pub storage_factory_set: bool,
    pub server_data_set: bool,
}

/// What the host does to build the system once the builder is checked.
#[derive(Debug)]
pub struct BuildPlan {
    /// The host node's id.
    pub host_id: u64,
    /// The host node's info, from the seed nodes.
    pub host_info: NodeInfo,
    /// Whether a network must be created, none being provided.
    pub create_network: bool,
    /// Whether the default endpoint data must be created, none being provided.
    pub create_server_data: bool,
}

impl RaftSystemBuilder {
    /// A builder for host `id` with nothing provided.
    pub fn new(id: u64) -> (r: RaftSystemBuilder)
        ensures
            r.id == id,
            !r.network_set,
            r.config is None,
            !r.storage_factory_set,
            !r.server_data_set,
    {
        RaftSystemBuilder {
            id,
            network_set: false,
            config: None,
            storage_factory_set: false,
            server_data_set: false,
        }
    }

    /// Sets the configuration.
    pub fn with_configuration(&mut self, config: Configuration)
        ensures
            final(self).config == Some(config),
            final(self).id == old(self).id,
            final(self).network_set == old(self).network_set,
            final(self).storage_factory_set == old(self).storage_factory_set,
            final(self).server_data_set == old(self).server_data_set,
    {
        self.config = Some(config);
    }

    /// Records that the network is provided.
    pub fn with_network(&mut self)
        ensures
            final(self).network_set,
            final(self).config == old(self).config,
            final(self).id == old(self).id,
            final(self).storage_factory_set == old(self).storage_factory_set,
            final(self).server_data_set == old(self).server_data_set,
    {
        self.network_set = true;
    }

    /// Records that the storage factory is provided.
    pub fn with_storage_factory(&mut self)
        ensures
            final(self).storage_factory_set,
            final(self).config == old(self).config,
            final(self).id == old(self).id,
            final(self).network_set == old(self).network_set,
            final(self).server_data_set == old(self).server_data_set,
    {
        self.storage_factory_set = true;
    }

    /// Records that the endpoint data is provided.
    pub fn bind_with(&mut self)
        ensures
            final(self).server_data_set,
            final(self).config == old(self).config,
            final(self).id == old(self).id,
            final(self).network_set == old(self).network_set,
            final(self).storage_factory_set == old(self).storage_factory_set,
    {
        self.server_data_set = true;
    }

    /// Checks that a configuration and a storage factory are provided, the configuration
    /// first.
    pub fn check_requirements(&self) -> (r: Result<(), ConfigurationError>)
        ensures
            self.config is None ==> (r matches Err(ConfigurationError::Unknown(m)) && m@
                == "No means to configuration Raft system was provided"@),
            self.config is Some && !self.storage_factory_set ==> (r matches Err(
                ConfigurationError::Unknown(m),
            ) && m@ == "No means to build RaftStorage was provided"@),
            self.config is Some && self.storage_factory_set ==> r is Ok,
    {
        if self.config.is_none() {
            return Err(
                ConfigurationError::Unknown("No means to configuration Raft system was provided".to_owned()),
            );
        }
        if !self.storage_factory_set {
            return Err(ConfigurationError::Unknown("No means to build RaftStorage was provided".to_owned()));
        }
        Ok(())
    }

    /// Checks the builder and finds the host among the seed nodes: the plan to build the
    /// system, or the configuration error, or a builder error when the host is not a seed
    /// node.
    pub fn build_plan(&self) -> (r: Result<BuildPlan, RaftSystemError>)
        ensures
            self.config is None ==> (r matches Err(RaftSystemError::Configuration(ConfigurationError::Unknown(m)))
                && m@ == "No means to configuration Raft system was provided"@),
            self.config is Some && !self.storage_factory_set ==> (r matches Err(
                RaftSystemError::Configuration(ConfigurationError::Unknown(m)),
            ) && m@ == "No means to build RaftStorage was provided"@),
            match self.config {
                Some(c) => self.storage_factory_set ==> {
                    let found = exists|i: int|
                        0 <= i < c.seed_nodes@.len() && (#[trigger] c.seed_nodes@[i]).name@ == c.host@;
                    &&& !found ==> (r matches Err(RaftSystemError::BuilderError(m)) && m@
                        == "NoneError"@)
                    &&& found ==> (r matches Ok(p) && p.host_id == self.id && p.host_info.name@
                        == c.host@ && (exists|i: int|
                        0 <= i < c.seed_nodes@.len() && c.seed_nodes@[i] == p.host_info)
                        && p.create_network == !self.network_set && p.create_server_data
                        == !self.server_data_set)
                },
                None => true,
            },
    {
        match self.check_requirements() {
            Err(e) => Err(RaftSystemError::Configuration(e)),
            Ok(_) => match &self.config {
                None => Err(RaftSystemError::BuilderError("NoneError".to_owned())),
                Some(c) => match c.seed_node(&c.host) {
                    None => Err(RaftSystemError::BuilderError("NoneError".to_owned())),
                    Some(host_info) => Ok(
                        BuildPlan {
                            host_id: self.id,
                            host_info,
                            create_network: !self.network_set,
                            create_server_data: !self.server_data_set,
                        },
                    ),
                },
            },
        }
    }
}

} // verus!
