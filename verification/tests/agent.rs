use chat_analytics::agent::{
    build_prompt, AdapterConfig, AdapterType, AgentAction, AgentDecision, AgentType,
    AgentVariant, ChatAgent, ProxyAgent, ReplyAgent, TapAgent,
};

fn chat_agent(agent_type: AgentType, adapter: AdapterType) -> ChatAgent {
    ChatAgent {
        name: "helper".to_string(),
        agent_type,
        adapter,
        model: "gpt-4o".to_string(),
        prompt: "Translate to French:".to_string(),
        args: serde_json::Value::Null,
    }
}

#[test]
fn prompt_is_joined_with_a_space() {
    assert_eq!(build_prompt("Translate:", "hello"), "Translate: hello");
    assert_eq!(build_prompt("", ""), " ");
}

#[test]
fn proxy_agent_modifies_with_the_completion() {
    let v = AgentVariant::from_chat_agent(chat_agent(AgentType::Proxy, AdapterType::Ollama), None);
    assert!(matches!(v, AgentVariant::Proxy(_)));
    match v.adapter() {
        AdapterConfig::Ollama { model } => assert_eq!(model, "gpt-4o"),
        _ => panic!("expected an ollama adapter"),
    }
    match v.start("hello") {
        AgentAction::Complete(p) => assert_eq!(p, "Translate to French: hello"),
        _ => panic!("a proxy agent asks the model"),
    }
    match v.finish("bonjour".to_string()) {
        AgentDecision::Modify(t) => assert_eq!(t, "bonjour"),
        _ => panic!("a proxy agent modifies"),
    }
}

#[test]
fn reply_agent_replies_with_the_completion() {
    let v = AgentVariant::from_chat_agent(
        chat_agent(AgentType::Reply, AdapterType::OpenAI),
        Some("sk-test".to_string()),
    );
    assert!(matches!(v, AgentVariant::Reply(_)));
    match v.adapter() {
        AdapterConfig::OpenAI { api_key, model } => {
            assert_eq!(api_key, "sk-test");
            assert_eq!(model, "gpt-4o");
        }
        _ => panic!("expected an openai adapter"),
    }
    match v.start("hi") {
        AgentAction::Complete(p) => assert_eq!(p, "Translate to French: hi"),
        _ => panic!("a reply agent asks the model"),
    }
    match v.finish("salut".to_string()) {
        AgentDecision::Reply(t) => assert_eq!(t, "salut"),
        _ => panic!("a reply agent replies"),
    }
}

#[test]
fn tap_agent_changes_nothing() {
    let v = AgentVariant::from_chat_agent(chat_agent(AgentType::Tap, AdapterType::Test), None);
    assert!(matches!(v, AgentVariant::Tap(_)));
    assert!(matches!(v.adapter(), AdapterConfig::Test));
    assert!(matches!(v.start("hello"), AgentAction::Decided(AgentDecision::Unchanged)));
    assert!(matches!(v.finish("x".to_string()), AgentDecision::Unchanged));
}

#[test]
fn agents_convert_into_variants() {
    let p = ProxyAgent {
        name: "p".to_string(),
        adapter: AdapterConfig::Test,
        prompt: "x".to_string(),
        args: serde_json::Value::Null,
    };
    assert!(matches!(AgentVariant::from(p), AgentVariant::Proxy(_)));
    let r = ReplyAgent {
        name: "r".to_string(),
        adapter: AdapterConfig::Test,
        prompt: "x".to_string(),
        args: serde_json::Value::Null,
    };
    assert!(matches!(AgentVariant::from(r), AgentVariant::Reply(_)));
    let t = TapAgent {
        name: "t".to_string(),
        adapter: AdapterConfig::Test,
        prompt: "x".to_string(),
        args: serde_json::Value::Null,
    };
    let v: AgentVariant = t.into();
    assert!(matches!(v, AgentVariant::Tap(_)));
}

#[test]
fn each_agent_kind_decides_on_its_own() {
    let p = ProxyAgent {
        name: "p".to_string(),
        adapter: AdapterConfig::Test,
        prompt: "Fix grammar:".to_string(),
        args: serde_json::Value::Null,
    };
    match p.start("i has") {
        AgentAction::Complete(s) => assert_eq!(s, "Fix grammar: i has"),
        _ => panic!("a proxy agent asks the model"),
    }
    assert!(matches!(p.finish("I have".to_string()), AgentDecision::Modify(t) if t == "I have"));

    let r = ReplyAgent {
        name: "r".to_string(),
        adapter: AdapterConfig::Test,
        prompt: "Answer:".to_string(),
        args: serde_json::Value::Null,
    };
    match r.start("2+2?") {
        AgentAction::Complete(s) => assert_eq!(s, "Answer: 2+2?"),
        _ => panic!("a reply agent asks the model"),
    }
    assert!(matches!(r.finish("4".to_string()), AgentDecision::Reply(t) if t == "4"));

    let t = TapAgent {
        name: "t".to_string(),
        adapter: AdapterConfig::Test,
        prompt: "watch".to_string(),
        args: serde_json::Value::Null,
    };
    assert!(matches!(t.start("anything"), AgentAction::Decided(AgentDecision::Unchanged)));
    assert!(matches!(t.finish("ignored".to_string()), AgentDecision::Unchanged));
}
