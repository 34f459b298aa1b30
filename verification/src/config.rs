//! The arena's configuration: server settings, model providers and agents,
//! with the lookups that the rest of the library makes in it.

use vstd::hash_map::StringHashMap;
use vstd::prelude::*;
use vstd::string::*;

use crate::text::str_eq;

verus! {

/// The view of an optional string.
pub open spec fn opt_str(o: Option<String>) -> Option<Seq<char>> {
    match o {
        Some(s) => Some(s@),
        None => None,
    }
}

/// The port the server listens on unless configured otherwise.
pub fn default_port() -> (r: u16)
    ensures
        r == 3030,
{
    3030
}

/// The SQLite database path unless configured otherwise.
pub fn default_db() -> (r: String)
    ensures
        r@ == "aliceandbob.sqlite"@,
{
    String::from_str("aliceandbob.sqlite")
}

/// How many requests may be in flight to one provider unless configured
/// otherwise.
pub fn default_max_concurrent() -> (r: u32)
    ensures
        r == 4,
{
    4
}

pub struct ServerConfig {
    pub port: u16,
    pub database: String,
    /// Directory with the built web UI, served at `/` when set and present.
    pub web_dist: Option<String>,
}

impl Default for ServerConfig {
    fn default() -> (r: Self)
        ensures
            r.port == 3030,
            r.database@ == "aliceandbob.sqlite"@,
            r.web_dist is None,
    {
        ServerConfig { port: default_port(), database: default_db(), web_dist: None }
    }
}

/// The process environment as name/value pairs, handed to the library by the
/// caller that reads it.
pub struct Environment {
    vars: StringHashMap<String>,
}

impl View for Environment {
    type V = Map<Seq<char>, Seq<char>>;

    closed spec fn view(&self) -> Map<Seq<char>, Seq<char>> {
        self.vars@.map_values(|v: String| v@)
    }
}

impl Environment {
    /// An environment without variables.
    pub fn new() -> (r: Self)
        ensures
            r@ == Map::<Seq<char>, Seq<char>>::empty(),
    {
        let r = Environment { vars: StringHashMap::new() };
        assert(r@ =~= Map::<Seq<char>, Seq<char>>::empty());
        r
    }

    /// Sets a variable.
    pub fn set(&mut self, name: String, value: String)
        ensures
            final(self)@ == old(self)@.insert(name@, value@),
    {
        self.vars.insert(name, value);
        assert(self@ =~= old(self)@.insert(name@, value@));
    }

    /// The value of a variable, if it is set.
    pub fn get(&self, name: &str) -> (r: Option<String>)
        ensures
            opt_str(r) == (if self@.contains_key(name@) {
                Some(self@[name@])
            } else {
                None
            }),
    {
        match self.vars.get(name) {
            Some(v) => Some(v.clone()),
            None => None,
        }
    }
}

pub struct ProviderConfig {
    /// OpenAI-compatible base url, e.g. "https://openrouter.ai/api/v1".
    pub base_url: String,
    /// Literal API key (prefer `api_key_env`).
    pub api_key: Option<String>,
    /// Name of an environment variable holding the API key.
    pub api_key_env: Option<String>,
    /// Max in-flight requests to this provider.
    pub max_concurrent: u32,
    /// Pace request starts to this rate.
    pub requests_per_minute: Option<u32>,
}

impl ProviderConfig {
    /// The API key of a provider: the literal key if there is one, else the
    /// value of the named environment variable if that is set.
    pub open spec fn spec_api_key(&self, env: Map<Seq<char>, Seq<char>>) -> Option<Seq<char>> {
        match self.api_key {
            Some(k) => Some(k@),
            None => match self.api_key_env {
                Some(name) => if env.contains_key(name@) {
                    Some(env[name@])
                } else {
                    None
                },
                None => None,
            },
        }
    }

    pub fn resolve_api_key(&self, env: &Environment) -> (r: Option<String>)
        ensures
            opt_str(r) == self.spec_api_key(env@),
    {
        if let Some(k) = &self.api_key {
            return Some(k.clone());
        }
        if let Some(name) = &self.api_key_env {
            return env.get(name.as_str());
        }
        None
    }
}

/// The role of an agent in the arena.
#[derive(PartialEq, Eq, Structural, Clone, Copy, Debug)]
pub enum AgentRole {
    Unspecified,
    Player,
    GameMaster,
}

/// An agent as it is reported to clients.
pub struct AgentConfig {
    pub id: String,
    pub name: String,
    pub role: AgentRole,
    pub provider: String,
    pub model: String,
    pub persona: String,
}

/// Whether a configured role names a player.
pub open spec fn is_player_role(role: Seq<char>) -> bool {
    role == "player"@
}

/// Whether a configured role names a game master (`game_master` or `gm`).
pub open spec fn is_gm_role(role: Seq<char>) -> bool {
    role == "game_master"@ || role == "gm"@
}

/// The role that a configured role text stands for.
pub open spec fn role_of(role: Seq<char>) -> AgentRole {
    if is_gm_role(role) {
        AgentRole::GameMaster
    } else if is_player_role(role) {
        AgentRole::Player
    } else {
        AgentRole::Unspecified
    }
}

pub struct AgentEntry {
    pub id: String,
    pub name: String,
    /// "player" or "game_master"
    pub role: String,
    pub provider: String,
    pub model: String,
    pub persona: String,
}

impl AgentEntry {
    pub fn to_proto(&self) -> (r: AgentConfig)
        ensures
            r.id@ == self.id@,
            r.name@ == self.name@,
            r.role == role_of(self.role@),
            r.provider@ == self.provider@,
            r.model@ == self.model@,
            r.persona@ == self.persona@,
    {
        let role = if self.is_gm() {
            AgentRole::GameMaster
        } else if self.is_player() {
            AgentRole::Player
        } else {
            AgentRole::Unspecified
        };
        AgentConfig {
            id: self.id.clone(),
            name: self.name.clone(),
            role,
            provider: self.provider.clone(),
            model: self.model.clone(),
            persona: self.persona.clone(),
        }
    }

    pub fn is_player(&self) -> (r: bool)
        ensures
            r == is_player_role(self.role@),
    {
        str_eq(self.role.as_str(), "player")
    }

    pub fn is_gm(&self) -> (r: bool)
        ensures
            r == is_gm_role(self.role@),
    {
        str_eq(self.role.as_str(), "game_master") || str_eq(self.role.as_str(), "gm")
    }
}

/// Why a configuration is refused.
pub enum ConfigError {
    /// An agent names a provider that the configuration does not define.
    UnknownProvider { agent_id: String, provider: String },
}

impl ConfigError {
    pub open spec fn spec_message(&self) -> Seq<char> {
        match self {
            ConfigError::UnknownProvider { agent_id, provider } => "agent '"@ + agent_id@
                + "' references unknown provider '"@ + provider@ + "'"@,
        }
    }

    /// The message that the error is reported with.
    pub fn message(&self) -> (r: String)
        ensures
            r@ == self.spec_message(),
    {
        match self {
            ConfigError::UnknownProvider { agent_id, provider } => String::from_str(
                "agent '",
            ).concat(agent_id.as_str()).concat("' references unknown provider '").concat(
                provider.as_str(),
            ).concat("'"),
        }
    }
}

/// The ids of the agents, in order.
pub open spec fn agent_ids(agents: Seq<AgentEntry>) -> Seq<Seq<char>> {
    agents.map_values(|a: AgentEntry| a.id@)
}

/// For each agent, whether it is a game master.
pub open spec fn gm_flags(agents: Seq<AgentEntry>) -> Seq<bool> {
    agents.map_values(|a: AgentEntry| is_gm_role(a.role@))
}

/// For each agent, whether its provider is defined.
pub open spec fn provider_known_flags(
    agents: Seq<AgentEntry>,
    providers: Map<Seq<char>, ProviderConfig>,
) -> Seq<bool> {
    agents.map_values(|a: AgentEntry| providers.contains_key(a.provider@))
}

pub open spec fn is_player_entry(a: AgentEntry) -> bool {
    is_player_role(a.role@)
}

pub struct Config {
    pub server: ServerConfig,
    pub providers: StringHashMap<ProviderConfig>,
    pub agents: Vec<AgentEntry>,
}

proof fn lemma_filter_push<A>(s: Seq<A>, pred: spec_fn(A) -> bool, e: A)
    ensures
        pred(e) ==> s.push(e).filter(pred) == s.filter(pred).push(e),
        !pred(e) ==> s.push(e).filter(pred) == s.filter(pred),
{
    reveal(Seq::filter);
    assert(s.push(e).drop_last() =~= s);
}

impl Config {
    /// A configuration with the given server settings and agents and no
    /// providers yet.
    pub fn new(server: ServerConfig, agents: Vec<AgentEntry>) -> (r: Self)
        ensures
            r.server == server,
            r.agents@ == agents@,
            r.providers@ == Map::<Seq<char>, ProviderConfig>::empty(),
    {
        Config { server, providers: StringHashMap::new(), agents }
    }

    /// Defines (or redefines) a provider.
    pub fn add_provider(&mut self, name: String, provider: ProviderConfig)
        ensures
            final(self).providers@ == old(self).providers@.insert(name@, provider),
            final(self).agents@ == old(self).agents@,
            final(self).server == old(self).server,
    {
        self.providers.insert(name, provider);
    }

    /// Refuses a configuration in which an agent names an undefined provider;
    /// the error names the first such agent.
    pub fn validate(&self) -> (r: Result<(), ConfigError>)
        ensures
            match provider_known_flags(self.agents@, self.providers@).index_of_first(false) {
                Some(i) => r matches Err(ConfigError::UnknownProvider { agent_id, provider })
                    && agent_id@ == self.agents@[i].id@ && provider@
                    == self.agents@[i].provider@,
                None => r is Ok,
            },
            r is Ok <==> forall|i: int|
                0 <= i < self.agents@.len() ==> self.providers@.contains_key(
                    #[trigger] self.agents@[i].provider@,
                ),
    {
        let ghost flags = provider_known_flags(self.agents@, self.providers@);
        let mut i: usize = 0;
        while i < self.agents.len()
            invariant
                i <= self.agents@.len(),
                flags == provider_known_flags(self.agents@, self.providers@),
                forall|j: int| 0 <= j < i ==> flags[j],
            decreases self.agents@.len() - i,
        {
            let agent = &self.agents[i];
            if !self.providers.contains_key(agent.provider.as_str()) {
                proof {
                    flags.index_of_first_ensures(false);
                    assert(flags[i as int] == false);
                    assert(flags.contains(false));
                }
                return Err(
                    ConfigError::UnknownProvider {
                        agent_id: agent.id.clone(),
                        provider: agent.provider.clone(),
                    },
                );
            }
            i = i + 1;
        }
        proof {
            flags.index_of_first_ensures(false);
            if flags.contains(false) {
                let k: int = choose|k: int| 0 <= k < flags.len() && flags[k] == false;
                assert(flags[k]);
            }
            assert forall|j: int| 0 <= j < self.agents@.len() implies self.providers@.contains_key(
                #[trigger] self.agents@[j].provider@,
            ) by {
                assert(flags[j]);
            }
        }
        Ok(())
    }

    /// The first agent with the given id.
    pub fn agent(&self, id: &str) -> (r: Option<&AgentEntry>)
        ensures
            match agent_ids(self.agents@).index_of_first(id@) {
                Some(i) => r matches Some(a) && *a == self.agents@[i],
                None => r is None,
            },
    {
        let ghost ids = agent_ids(self.agents@);
        let mut i: usize = 0;
        while i < self.agents.len()
            invariant
                i <= self.agents@.len(),
                ids == agent_ids(self.agents@),
                forall|j: int| 0 <= j < i ==> ids[j] != id@,
            decreases self.agents@.len() - i,
        {
            if str_eq(self.agents[i].id.as_str(), id) {
                proof {
                    ids.index_of_first_ensures(id@);
                    assert(ids[i as int] == id@);
                    assert(ids.contains(id@));
                }
                return Some(&self.agents[i]);
            }
            i = i + 1;
        }
        proof {
            ids.index_of_first_ensures(id@);
            if ids.contains(id@) {
                let k: int = choose|k: int| 0 <= k < ids.len() && ids[k] == id@;
                assert(ids[k] != id@);
            }
        }
        None
    }

    /// The first agent whose role is that of a game master.
    pub fn default_gm(&self) -> (r: Option<&AgentEntry>)
        ensures
            match gm_flags(self.agents@).index_of_first(true) {
                Some(i) => r matches Some(a) && *a == self.agents@[i],
                None => r is None,
            },
    {
        let ghost flags = gm_flags(self.agents@);
        let mut i: usize = 0;
        while i < self.agents.len()
            invariant
                i <= self.agents@.len(),
                flags == gm_flags(self.agents@),
                forall|j: int| 0 <= j < i ==> !flags[j],
            decreases self.agents@.len() - i,
        {
            if self.agents[i].is_gm() {
                proof {
                    flags.index_of_first_ensures(true);
                    assert(flags[i as int]);
                    assert(flags.contains(true));
                }
                return Some(&self.agents[i]);
            }
            i = i + 1;
        }
        proof {
            flags.index_of_first_ensures(true);
            if flags.contains(true) {
                let k: int = choose|k: int| 0 <= k < flags.len() && flags[k] == true;
                assert(!flags[k]);
            }
        }
        None
    }

    /// The agents whose role is that of a player, in configuration order.
    pub fn players(&self) -> (r: Vec<&AgentEntry>)
        ensures
            r@.map_values(|a: &AgentEntry| *a) == self.agents@.filter(
                |a: AgentEntry| is_player_entry(a),
            ),
    {
        let ghost pred = |a: AgentEntry| is_player_entry(a);
        let mut r: Vec<&AgentEntry> = Vec::new();
        let mut i: usize = 0;
        while i < self.agents.len()
            invariant
                i <= self.agents@.len(),
                r@.map_values(|a: &AgentEntry| *a) == self.agents@.take(i as int).filter(pred),
                pred == (|a: AgentEntry| is_player_entry(a)),
            decreases self.agents@.len() - i,
        {
            let a = &self.agents[i];
            let ghost old_r = r@;
            if a.is_player() {
                r.push(a);
            }
            proof {
                lemma_filter_push(self.agents@.take(i as int), pred, *a);
                assert(self.agents@.take(i + 1) =~= self.agents@.take(i as int).push(*a));
                if pred(*a) {
                    assert(r@.map_values(|a: &AgentEntry| *a) =~= old_r.map_values(
                        |a: &AgentEntry| *a,
                    ).push(*a));
                }
            }
            i = i + 1;
        }
        assert(self.agents@.take(self.agents@.len() as int) =~= self.agents@);
        r
    }
}

} // verus!
