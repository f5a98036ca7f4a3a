//! Plugin descriptors of the state machine reaction and its companion source.
//!
//! One plugin exports both, each of kind `state-machine`. The reaction's
//! configuration names the source id; the source needs no configuration of its
//! own.

use vstd::prelude::*;

use crate::component::{reaction_of, SourceView, StateMachineReaction, StateMachineSource};
use crate::config::{config_error, config_valid, ConfigError, StateMachineReactionConfig};

verus! {

/// Descriptor of the state machine reaction plugin.
pub struct StateMachineReactionDescriptor;

impl StateMachineReactionDescriptor {
    pub fn kind(&self) -> (r: &'static str)
        ensures
            r@ == "state-machine"@,
    {
        "state-machine"
    }

    pub fn config_version(&self) -> (r: &'static str)
        ensures
            r@ == "1.0.0"@,
    {
        "1.0.0"
    }

    pub fn config_schema_name(&self) -> (r: &'static str)
        ensures
            r@ == "reaction.state_machine.StateMachineReactionConfig"@,
    {
        "reaction.state_machine.StateMachineReactionConfig"
    }

    pub fn display_name(&self) -> (r: &'static str)
        ensures
            r@ == "State Machine"@,
    {
        "State Machine"
    }

    pub fn display_description(&self) -> (r: &'static str)
        ensures
            r@
                == "Maps query results to entity state transitions and exposes live entity state as a source"@,
    {
        "Maps query results to entity state transitions and exposes live entity state as a source"
    }

    /// The reaction a plugin host asks for. The queries it subscribes to come
    /// from its states, so the host's own query list plays no part.
    pub fn create_reaction(
        &self,
        id: &str,
        _query_ids: Vec<String>,
        config: StateMachineReactionConfig,
        auto_start: bool,
    ) -> (r: Result<StateMachineReaction, ConfigError>)
        ensures
            r is Ok <==> config_valid(config@),
            match r {
                Ok(x) => x@ == reaction_of(id@, config@, None, auto_start),
                Err(e) => e == config_error(config@),
            },
    {
        StateMachineReaction::create(id.to_owned(), config, None, auto_start)
    }
}

/// Descriptor of the state machine source plugin.
pub struct StateMachineSourceDescriptor;

impl StateMachineSourceDescriptor {
    pub fn kind(&self) -> (r: &'static str)
        ensures
            r@ == "state-machine"@,
    {
        "state-machine"
    }

    pub fn config_version(&self) -> (r: &'static str)
        ensures
            r@ == "1.0.0"@,
    {
        "1.0.0"
    }

    pub fn config_schema_name(&self) -> (r: &'static str)
        ensures
            r@ == "source.state_machine.StateMachineSourceConfig"@,
    {
        "source.state_machine.StateMachineSourceConfig"
    }

    pub fn display_name(&self) -> (r: &'static str)
        ensures
            r@ == "State Machine"@,
    {
        "State Machine"
    }

    pub fn display_description(&self) -> (r: &'static str)
        ensures
            r@ == "Exposes live entity state produced by a state machine reaction"@,
    {
        "Exposes live entity state produced by a state machine reaction"
    }

    /// The source a plugin host asks for, registered under `id`.
    pub fn create_source(&self, id: &str, auto_start: bool) -> (s: StateMachineSource)
        ensures
            s@ == (SourceView { id: id@, auto_start }),
    {
        StateMachineSource::create(id, auto_start)
    }
}

} // verus!
