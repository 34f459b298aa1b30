//! The decisions of the arena's service: which agents a new match is between
//! and which game master runs it, and how agents are reported.

use vstd::prelude::*;
use vstd::string::*;

use crate::config::{agent_ids, gm_flags, role_of, AgentConfig, AgentEntry, Config};
use crate::text::owned;

verus! {

/// Why a match cannot start.
pub enum StartError {
    /// A player is not a configured agent (an invalid argument).
    UnknownAgent { agent_id: String },
    /// No game master was named and none is configured (a failed
    /// precondition).
    NoGameMaster,
}

impl StartError {
    pub open spec fn spec_message(&self) -> Seq<char> {
        match self {
            StartError::UnknownAgent { agent_id } => "unknown agent '"@ + agent_id@ + "'"@,
            StartError::NoGameMaster => "no game_master agent configured"@,
        }
    }

    pub fn message(&self) -> (r: String)
        ensures
            r@ == self.spec_message(),
    {
        match self {
            StartError::UnknownAgent { agent_id } => String::from_str("unknown agent '").concat(
                agent_id.as_str(),
            ).concat("'"),
            StartError::NoGameMaster => String::from_str("no game_master agent configured"),
        }
    }
}

/// Whether an agent with this id is configured.
pub open spec fn is_configured(config: &Config, id: Seq<char>) -> bool {
    agent_ids(config.agents@).contains(id)
}

/// Checks the players of a new match and picks its game master: the one
/// asked for, else the first configured one. Returns the game master's id.
pub fn resolve_match(
    config: &Config,
    agent_a_id: &str,
    agent_b_id: &str,
    gm_agent_id: &str,
) -> (r: Result<String, StartError>)
    ensures
        !is_configured(config, agent_a_id@) ==> (r matches Err(
            StartError::UnknownAgent { agent_id },
        ) && agent_id@ == agent_a_id@),
        is_configured(config, agent_a_id@) && !is_configured(config, agent_b_id@) ==> (r matches Err(
            StartError::UnknownAgent { agent_id },
        ) && agent_id@ == agent_b_id@),
        is_configured(config, agent_a_id@) && is_configured(config, agent_b_id@) ==> if gm_agent_id@.len()
            > 0 {
            r matches Ok(gm) && gm@ == gm_agent_id@
        } else {
            match gm_flags(config.agents@).index_of_first(true) {
                Some(g) => r matches Ok(gm) && gm@ == config.agents@[g].id@,
                None => r matches Err(StartError::NoGameMaster),
            }
        },
{
    proof {
        agent_ids(config.agents@).index_of_first_ensures(agent_a_id@);
        agent_ids(config.agents@).index_of_first_ensures(agent_b_id@);
    }
    if config.agent(agent_a_id).is_none() {
        return Err(StartError::UnknownAgent { agent_id: owned(agent_a_id) });
    }
    if config.agent(agent_b_id).is_none() {
        return Err(StartError::UnknownAgent { agent_id: owned(agent_b_id) });
    }
    if gm_agent_id.unicode_len() != 0 {
        return Ok(owned(gm_agent_id));
    }
    match config.default_gm() {
        Some(gm) => Ok(gm.id.clone()),
        None => Err(StartError::NoGameMaster),
    }
}

/// All configured agents, as reported to clients, in configuration order.
pub fn agent_configs(config: &Config) -> (r: Vec<AgentConfig>)
    ensures
        r@.len() == config.agents@.len(),
        forall|i: int|
            #![trigger r@[i]]
            0 <= i < r@.len() ==> {
                let a: AgentEntry = config.agents@[i];
                &&& r@[i].id@ == a.id@
                &&& r@[i].name@ == a.name@
                &&& r@[i].role == role_of(a.role@)
                &&& r@[i].provider@ == a.provider@
                &&& r@[i].model@ == a.model@
                &&& r@[i].persona@ == a.persona@
            },
{
    let mut r: Vec<AgentConfig> = Vec::new();
    let mut i: usize = 0;
    while i < config.agents.len()
        invariant
            i <= config.agents@.len(),
            r@.len() == i,
            forall|j: int|
                #![trigger r@[j]]
                0 <= j < i ==> {
                    let a: AgentEntry = config.agents@[j];
                    &&& r@[j].id@ == a.id@
                    &&& r@[j].name@ == a.name@
                    &&& r@[j].role == role_of(a.role@)
                    &&& r@[j].provider@ == a.provider@
                    &&& r@[j].model@ == a.model@
                    &&& r@[j].persona@ == a.persona@
                },
        decreases config.agents@.len() - i,
    {
        r.push(config.agents[i].to_proto());
        i = i + 1;
    }
    r
}

} // verus!
