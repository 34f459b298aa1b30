use aliceandbob::arena::{agent_configs, resolve_match, StartError};
use aliceandbob::config::{
    default_db, default_max_concurrent, default_port, AgentEntry, AgentRole, Config, ConfigError,
    Environment, ProviderConfig, ServerConfig,
};
use aliceandbob::llm::{ChatMessage, ModelError, ModelRef};

fn agent(id: &str, role: &str, provider: &str) -> AgentEntry {
    AgentEntry {
        id: id.to_string(),
        name: format!("Name of {id}"),
        role: role.to_string(),
        provider: provider.to_string(),
        model: format!("model-{id}"),
        persona: String::new(),
    }
}

fn provider(base_url: &str, api_key: Option<&str>, api_key_env: Option<&str>) -> ProviderConfig {
    ProviderConfig {
        base_url: base_url.to_string(),
        api_key: api_key.map(|s| s.to_string()),
        api_key_env: api_key_env.map(|s| s.to_string()),
        max_concurrent: default_max_concurrent(),
        requests_per_minute: None,
    }
}

fn sample_config() -> Config {
    let mut config = Config::new(
        ServerConfig::default(),
        vec![
            agent("alice", "player", "groq"),
            agent("referee", "game_master", "groq"),
            agent("bob", "player", "local"),
            agent("judge", "gm", "local"),
            agent("watcher", "observer", "local"),
        ],
    );
    config.add_provider("groq".to_string(), provider("https://api.groq.com/openai/v1/", None, Some("GROQ_KEY")));
    config.add_provider("local".to_string(), provider("http://localhost:11434/v1", Some("literal"), None));
    config
}

#[test]
fn defaults_match_documented_values() {
    assert_eq!(default_port(), 3030);
    assert_eq!(default_db(), "aliceandbob.sqlite");
    assert_eq!(default_max_concurrent(), 4);
    let server = ServerConfig::default();
    assert_eq!(server.port, 3030);
    assert_eq!(server.database, "aliceandbob.sqlite");
    assert!(server.web_dist.is_none());
}

#[test]
fn api_key_prefers_literal_then_environment() {
    let mut env = Environment::new();
    env.set("GROQ_KEY".to_string(), "from-env".to_string());
    let literal = provider("u", Some("lit"), Some("GROQ_KEY"));
    assert_eq!(literal.resolve_api_key(&env), Some("lit".to_string()));
    let from_env = provider("u", None, Some("GROQ_KEY"));
    assert_eq!(from_env.resolve_api_key(&env), Some("from-env".to_string()));
    let unset = provider("u", None, Some("OTHER_KEY"));
    assert_eq!(unset.resolve_api_key(&env), None);
    let none = provider("u", None, None);
    assert_eq!(none.resolve_api_key(&env), None);
}

#[test]
fn roles_are_recognised() {
    assert!(agent("a", "player", "p").is_player());
    assert!(!agent("a", "player", "p").is_gm());
    assert!(agent("a", "gm", "p").is_gm());
    assert!(agent("a", "game_master", "p").is_gm());
    assert!(!agent("a", "Player", "p").is_player());
    assert_eq!(agent("a", "player", "p").to_proto().role, AgentRole::Player);
    assert_eq!(agent("a", "gm", "p").to_proto().role, AgentRole::GameMaster);
    assert_eq!(agent("a", "game_master", "p").to_proto().role, AgentRole::GameMaster);
    assert_eq!(agent("a", "referee", "p").to_proto().role, AgentRole::Unspecified);
    let proto = agent("zed", "player", "prov").to_proto();
    assert_eq!(proto.id, "zed");
    assert_eq!(proto.name, "Name of zed");
    assert_eq!(proto.provider, "prov");
    assert_eq!(proto.model, "model-zed");
}

#[test]
fn validation_names_the_first_unknown_provider() {
    assert!(sample_config().validate().is_ok());
    let mut config = Config::new(
        ServerConfig::default(),
        vec![agent("alice", "player", "groq"), agent("bob", "player", "nowhere"), agent("carol", "player", "elsewhere")],
    );
    config.add_provider("groq".to_string(), provider("u", None, None));
    match config.validate() {
        Err(e) => {
            let ConfigError::UnknownProvider { agent_id, provider } = &e;
            assert_eq!(agent_id, "bob");
            assert_eq!(provider, "nowhere");
            assert_eq!(e.message(), "agent 'bob' references unknown provider 'nowhere'");
        }
        Ok(()) => panic!("expected a refusal"),
    }
}

#[test]
fn lookups_find_the_first_match() {
    let config = sample_config();
    assert_eq!(config.agent("bob").map(|a| a.provider.clone()), Some("local".to_string()));
    assert!(config.agent("nobody").is_none());
    assert_eq!(config.default_gm().map(|a| a.id.clone()), Some("referee".to_string()));
    let players: Vec<String> = config.players().iter().map(|a| a.id.clone()).collect();
    assert_eq!(players, vec!["alice".to_string(), "bob".to_string()]);
    let none = Config::new(ServerConfig::default(), vec![agent("x", "player", "p")]);
    assert!(none.default_gm().is_none());
}

#[test]
fn model_refs_trim_slashes_and_resolve_keys() {
    let config = sample_config();
    let mut env = Environment::new();
    env.set("GROQ_KEY".to_string(), "secret".to_string());
    let m = ModelRef::for_agent(&config, "alice", &env).ok().unwrap();
    assert_eq!(m.base_url, "https://api.groq.com/openai/v1");
    assert_eq!(m.api_key, Some("secret".to_string()));
    assert_eq!(m.model, "model-alice");
    assert_eq!(m.completions_url(), "https://api.groq.com/openai/v1/chat/completions");
    let p = provider("http://host///", None, None);
    let m2 = ModelRef::from_provider(&p, "llama", &Environment::new());
    assert_eq!(m2.base_url, "http://host");
    assert_eq!(m2.api_key, None);
    let m3 = ModelRef::for_agent(&config, "bob", &env).ok().unwrap();
    assert_eq!(m3.api_key, Some("literal".to_string()));
}

#[test]
fn model_refs_report_unknown_agents_and_providers() {
    let config = sample_config();
    match ModelRef::for_agent(&config, "ghost", &Environment::new()) {
        Err(e) => {
            assert!(matches!(e, ModelError::UnknownAgent { .. }));
            assert_eq!(e.message(), "unknown agent 'ghost'");
        }
        Ok(_) => panic!("expected an error"),
    }
    let mut broken = Config::new(ServerConfig::default(), vec![agent("x", "player", "missing")]);
    broken.add_provider("other".to_string(), provider("u", None, None));
    match ModelRef::for_agent(&broken, "x", &Environment::new()) {
        Err(e) => {
            assert!(matches!(e, ModelError::UnknownProvider { .. }));
            assert_eq!(e.message(), "unknown provider 'missing'");
        }
        Ok(_) => panic!("expected an error"),
    }
}

#[test]
fn chat_messages_carry_their_roles() {
    let s = ChatMessage::system("be brief".to_string());
    let u = ChatMessage::user("hi".to_string());
    let a = ChatMessage::assistant("hello".to_string());
    assert_eq!((s.role.as_str(), s.content.as_str()), ("system", "be brief"));
    assert_eq!((u.role.as_str(), u.content.as_str()), ("user", "hi"));
    assert_eq!((a.role.as_str(), a.content.as_str()), ("assistant", "hello"));
}

#[test]
fn starting_a_match_checks_agents_and_picks_a_game_master() {
    let config = sample_config();
    match resolve_match(&config, "ghost", "alsoghost", "") {
        Err(e) => assert_eq!(e.message(), "unknown agent 'ghost'"),
        Ok(_) => panic!("expected an error"),
    }
    match resolve_match(&config, "alice", "ghost", "") {
        Err(e) => assert_eq!(e.message(), "unknown agent 'ghost'"),
        Ok(_) => panic!("expected an error"),
    }
    assert_eq!(resolve_match(&config, "alice", "bob", "").ok(), Some("referee".to_string()));
    assert_eq!(resolve_match(&config, "alice", "bob", "judge").ok(), Some("judge".to_string()));
    let no_gm = Config::new(ServerConfig::default(), vec![agent("a", "player", "p"), agent("b", "player", "p")]);
    match resolve_match(&no_gm, "a", "b", "") {
        Err(e) => {
            assert!(matches!(e, StartError::NoGameMaster));
            assert_eq!(e.message(), "no game_master agent configured");
        }
        Ok(_) => panic!("expected an error"),
    }
}

#[test]
fn agents_are_listed_in_order() {
    let config = sample_config();
    let listed = agent_configs(&config);
    let ids: Vec<&str> = listed.iter().map(|a| a.id.as_str()).collect();
    assert_eq!(ids, vec!["alice", "referee", "bob", "judge", "watcher"]);
    assert_eq!(listed[3].role, AgentRole::GameMaster);
    assert_eq!(listed[4].role, AgentRole::Unspecified);
}
