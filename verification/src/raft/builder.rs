//! The builder of a Raft node.
use vstd::prelude::*;
use crate::config::{Configuration, ConfigurationError};
use crate::network::summary::copy_ids;

verus! {

/// What building a Raft node needs: its id, the seed members, and which of the network, the
/// configuration and the storage factory are provided. The host holds the network address
/// and the storage factory themselves.
#[derive(Debug)]
pub struct RaftBuilder {
    pub id: u64,
    pub seed_members: Vec<u64>,
    pub network_set: bool,
    pub config: Option<Configuration>,
    pub storage_factory_set: bool,
}

impl RaftBuilder {
    /// A builder for node `id` with nothing provided.
    pub fn new(id: u64) -> (r: RaftBuilder)
        ensures
            r.id == id,
            r.seed_members@ == Seq::<u64>::empty(),
            !r.network_set,
            r.config is None,
            !r.storage_factory_set,
    {
        RaftBuilder {
            id,
            seed_members: Vec::new(),
            network_set: false,
            config: None,
            storage_factory_set: false,
        }
    }

    /// Sets the seed members.
    pub fn with_seed_members(&mut self, seed_members: &Vec<u64>)
        ensures
            final(self).seed_members@ == seed_members@,
            final(self).id == old(self).id,
            final(self).network_set == old(self).network_set,
            final(self).config == old(self).config,
            final(self).storage_factory_set == old(self).storage_factory_set,
    {
        self.seed_members = copy_ids(seed_members);
    }

    /// Adds a seed member.
    pub fn push_seed_member(&mut self, seed_member: u64)
        ensures
            final(self).seed_members@ == old(self).seed_members@.push(seed_member),
            final(self).id == old(self).id,
            final(self).network_set == old(self).network_set,
            final(self).config == old(self).config,
            final(self).storage_factory_set == old(self).storage_factory_set,
    {
        self.seed_members.push(seed_member);
    }

    /// Sets the configuration.
    pub fn with_configuration(&mut self, config: Configuration)
        ensures
            final(self).config == Some(config),
            final(self).seed_members@ == old(self).seed_members@,
            final(self).id == old(self).id,
            final(self).network_set == old(self).network_set,
            final(self).storage_factory_set == old(self).storage_factory_set,
    {
        self.config = Some(config);
    }

    /// Records that the network is provided.
    pub fn with_network(&mut self)
        ensures
            final(self).network_set,
            final(self).config == old(self).config,
            final(self).seed_members@ == old(self).seed_members@,
            final(self).id == old(self).id,
            final(self).storage_factory_set == old(self).storage_factory_set,
    {
        self.network_set = true;
    }

    /// Records that the storage factory is provided.
    pub fn with_storage_factory(&mut self)
        ensures
            final(self).storage_factory_set,
            final(self).config == old(self).config,
            final(self).seed_members@ == old(self).seed_members@,
            final(self).id == old(self).id,
            final(self).network_set == old(self).network_set,
    {
        self.storage_factory_set = true;
    }

    /// Checks that a storage factory is provided.
    pub fn check_requirements(&self) -> (r: Result<(), ConfigurationError>)
        ensures
            self.storage_factory_set ==> r is Ok,
            !self.storage_factory_set ==> (r matches Err(ConfigurationError::Unknown(m)) && m@
                == "No means to build RaftStorage was provided"@),
    {
        if !self.storage_factory_set {
            return Err(ConfigurationError::Unknown("No means to build RaftStorage was provided".to_owned()));
        }
        Ok(())
    }

    /// Whether the Raft node can be built: a storage factory and a configuration are
    /// provided. A missing configuration is reported as such.
    pub fn check_build(&self) -> (r: Result<(), ConfigurationError>)
        ensures
            !self.storage_factory_set ==> (r matches Err(ConfigurationError::Unknown(m)) && m@
                == "No means to build RaftStorage was provided"@),
            self.storage_factory_set && self.config is None ==> r matches Err(
                ConfigurationError::NoConfiguration,
            ),
            self.storage_factory_set && self.config is Some ==> r is Ok,
    {
        match self.check_requirements() {
            Ok(_) => {
                if self.config.is_none() {
                    Err(ConfigurationError::NoConfiguration)
                } else {
                    Ok(())
                }
            },
            Err(err) => Err(err),
        }
    }
}

} // verus!
