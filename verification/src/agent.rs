//! Chat agents: how a stored agent definition becomes a runnable agent, and
//! what each kind of agent decides about a message. Asking the language
//! model is left to the caller: an agent says what to ask, and turns the
//! model's answer into its decision.

use vstd::prelude::*;

verus! {

#[verifier::external_type_specification]
#[verifier::external_body]
pub struct ExJsonValue(serde_json::Value);

/// Which language-model service an agent uses.
#[derive(Debug, Clone, Copy, PartialEq, Eq, Structural)]
pub enum AdapterType {
    OpenAI,
    Ollama,
    Test,
}

/// What an agent does with the messages of its chat.
#[derive(Debug, Clone, Copy, PartialEq, Eq, Structural)]
pub enum AgentType {
    /// Rewrites a message before it is posted.
    Proxy,
    /// Answers a message.
    Reply,
    /// Watches messages and changes nothing.
    Tap,
}

/// An agent as stored for a chat.
pub struct ChatAgent {
    pub name: String,
    pub agent_type: AgentType,
    pub adapter: AdapterType,
    pub model: String,
    pub prompt: String,
    pub args: serde_json::Value,
}

/// How to reach the language model of an agent.
pub enum AdapterConfig {
    OpenAI { api_key: String, model: String },
    Ollama { model: String },
    Test,
}

pub struct ProxyAgent {
    pub name: String,
    pub adapter: AdapterConfig,
    pub prompt: String,
    pub args: serde_json::Value,
}

pub struct ReplyAgent {
    pub name: String,
    pub adapter: AdapterConfig,
    pub prompt: String,
    pub args: serde_json::Value,
}

pub struct TapAgent {
    pub name: String,
    pub adapter: AdapterConfig,
    pub prompt: String,
    pub args: serde_json::Value,
}

/// A runnable agent of one of the three kinds.
pub enum AgentVariant {
    Proxy(ProxyAgent),
    Reply(ReplyAgent),
    Tap(TapAgent),
}

/// What an agent decides about a message.
pub enum AgentDecision {
    /// Replace the message with this text.
    Modify(String),
    /// Answer the message with this text.
    Reply(String),
    /// Leave the message as it is.
    Unchanged,
}

/// The next thing an agent needs in order to decide.
pub enum AgentAction {
    /// Ask the language model with this prompt, then call `finish`.
    Complete(String),
    /// The decision is made without asking the model.
    Decided(AgentDecision),
}

/// The adapter an agent definition asks for; an OpenAI adapter takes its
/// key from the caller.
pub open spec fn adapter_config_spec(
    adapter: AdapterType,
    model: Seq<char>,
    api_key: Option<Seq<char>>,
    cfg: AdapterConfig,
) -> bool {
    match adapter {
        AdapterType::OpenAI => cfg matches AdapterConfig::OpenAI { api_key: k, model: m } && Some(k@)
            == api_key && m@ == model,
        AdapterType::Ollama => cfg matches AdapterConfig::Ollama { model: m } && m@ == model,
        AdapterType::Test => cfg is Test,
    }
}

/// An adapter meets an agent definition exactly when it is of the
/// definition's service and carries the definition's model unchanged (and,
/// for OpenAI, the given key unchanged).
pub proof fn lemma_adapter_config_exact(
    adapter: AdapterType,
    model: Seq<char>,
    api_key: Option<Seq<char>>,
    cfg: AdapterConfig,
)
    ensures
        adapter == AdapterType::OpenAI ==> (adapter_config_spec(adapter, model, api_key, cfg) <==> (
        cfg matches AdapterConfig::OpenAI { api_key: k, model: m } && m@ == model && api_key
            == Some(k@))),
        adapter == AdapterType::Ollama ==> (adapter_config_spec(adapter, model, api_key, cfg) <==> (
        cfg matches AdapterConfig::Ollama { model: m } && m@ == model)),
        adapter == AdapterType::Test ==> (adapter_config_spec(adapter, model, api_key, cfg) <==> (
        cfg is Test)),
{
}

/// The prompt sent to the model: the agent's prompt, a space, the message.
pub open spec fn prompt_text(prompt: Seq<char>, msg: Seq<char>) -> Seq<char> {
    prompt + " "@ + msg
}

/// The prompt sent to the model is the agent's whole prompt, then one
/// space, then the whole message.
pub proof fn lemma_prompt_text_parts(prompt: Seq<char>, msg: Seq<char>)
    ensures
        prompt_text(prompt, msg).len() == prompt.len() + 1 + msg.len(),
        prompt_text(prompt, msg).subrange(0, prompt.len() as int) == prompt,
        prompt_text(prompt, msg)[prompt.len() as int] == ' ',
        prompt_text(prompt, msg).subrange(prompt.len() + 1int, prompt_text(prompt, msg).len() as int)
            == msg,
{
    reveal_strlit(" ");
    let t = prompt_text(prompt, msg);
    assert(t.subrange(0, prompt.len() as int) =~= prompt);
    assert(t.subrange(prompt.len() + 1int, t.len() as int) =~= msg);
}

/// Joins an agent's prompt and a message, separated by a space.
pub fn build_prompt(prompt: &str, msg: &str) -> (s: String)
    ensures
        s@ == prompt_text(prompt@, msg@),
        s@.len() == prompt@.len() + 1 + msg@.len(),
        s@.subrange(0, prompt@.len() as int) == prompt@,
        s@[prompt@.len() as int] == ' ',
        s@.subrange(prompt@.len() + 1int, s@.len() as int) == msg@,
{
    proof {
        lemma_prompt_text_parts(prompt@, msg@);
    }
    let mut s = String::from_str(prompt);
    s.append(" ");
    s.append(msg);
    s
}

impl ProxyAgent {
    /// The first step of processing `msg`: ask the model with the agent's
    /// prompt followed by the message.
    pub fn start(&self, msg: &str) -> (action: AgentAction)
        ensures
            action matches AgentAction::Complete(p) && p@ == prompt_text(self.prompt@, msg@),
    {
        AgentAction::Complete(build_prompt(self.prompt.as_str(), msg))
    }

    /// The decision once the model answered: the agent replaces the message with the model's answer.
    pub fn finish(&self, completion: String) -> (d: AgentDecision)
        ensures
            d matches AgentDecision::Modify(t) && t@ == completion@,
    {
        AgentDecision::Modify(completion)
    }
}

impl ReplyAgent {
    /// The first step of processing `msg`: ask the model with the agent's
    /// prompt followed by the message.
    pub fn start(&self, msg: &str) -> (action: AgentAction)
        ensures
            action matches AgentAction::Complete(p) && p@ == prompt_text(self.prompt@, msg@),
    {
        AgentAction::Complete(build_prompt(self.prompt.as_str(), msg))
    }

    /// The decision once the model answered: the agent answers the message with the model's answer.
    pub fn finish(&self, completion: String) -> (d: AgentDecision)
        ensures
            d matches AgentDecision::Reply(t) && t@ == completion@,
    {
        AgentDecision::Reply(completion)
    }
}

impl TapAgent {
    /// The first step of processing a message: a tap agent decides to
    /// change nothing, without asking the model.
    pub fn start(&self, _msg: &str) -> (action: AgentAction)
        ensures
            action matches AgentAction::Decided(AgentDecision::Unchanged),
    {
        AgentAction::Decided(AgentDecision::Unchanged)
    }

    /// The decision of a tap agent, whatever the model said: change nothing.
    pub fn finish(&self, _completion: String) -> (d: AgentDecision)
        ensures
            d is Unchanged,
    {
        AgentDecision::Unchanged
    }
}

impl AgentVariant {
    /// The name of the agent.
    pub open spec fn name_spec(&self) -> Seq<char> {
        match self {
            AgentVariant::Proxy(a) => a.name@,
            AgentVariant::Reply(a) => a.name@,
            AgentVariant::Tap(a) => a.name@,
        }
    }

    /// The agent's prompt.
    pub open spec fn prompt_spec(&self) -> Seq<char> {
        match self {
            AgentVariant::Proxy(a) => a.prompt@,
            AgentVariant::Reply(a) => a.prompt@,
            AgentVariant::Tap(a) => a.prompt@,
        }
    }

    /// The agent's extra arguments.
    pub open spec fn args_spec(&self) -> serde_json::Value {
        match self {
            AgentVariant::Proxy(a) => a.args,
            AgentVariant::Reply(a) => a.args,
            AgentVariant::Tap(a) => a.args,
        }
    }

    /// Builds a runnable agent from its stored definition. An OpenAI agent
    /// takes `openai_api_key`, which must be present for it.
    pub fn from_chat_agent(agent: ChatAgent, openai_api_key: Option<String>) -> (v: AgentVariant)
        requires
            agent.adapter == AdapterType::OpenAI ==> openai_api_key is Some,
        ensures
            match agent.agent_type {
                AgentType::Proxy => v is Proxy,
                AgentType::Reply => v is Reply,
                AgentType::Tap => v is Tap,
            },
            v.name_spec() == agent.name@,
            v.prompt_spec() == agent.prompt@,
            v.args_spec() == agent.args,
            adapter_config_spec(
                agent.adapter,
                agent.model@,
                match openai_api_key {
                    Some(k) => Some(k@),
                    None => None,
                },
                *v.adapter_spec(),
            ),
            agent.adapter == AdapterType::OpenAI ==> v.adapter_spec() is OpenAI,
            agent.adapter == AdapterType::OpenAI ==> v.adapter_spec()->OpenAI_model@
                == agent.model@,
            agent.adapter == AdapterType::OpenAI ==> v.adapter_spec()->OpenAI_api_key@
                == openai_api_key->0@,
            agent.adapter == AdapterType::Ollama ==> v.adapter_spec() is Ollama,
            agent.adapter == AdapterType::Ollama ==> v.adapter_spec()->Ollama_model@
                == agent.model@,
            agent.adapter == AdapterType::Test ==> *v.adapter_spec() is Test,
    {
        let adapter = match agent.adapter {
            AdapterType::OpenAI => {
                let api_key = match openai_api_key {
                    Some(k) => k,
                    None => String::new(),
                };
                AdapterConfig::OpenAI { api_key, model: agent.model }
            },
            AdapterType::Ollama => AdapterConfig::Ollama { model: agent.model },
            AdapterType::Test => AdapterConfig::Test,
        };

        match agent.agent_type {
            AgentType::Proxy => AgentVariant::Proxy(
                ProxyAgent { name: agent.name, adapter, prompt: agent.prompt, args: agent.args },
            ),
            AgentType::Reply => AgentVariant::Reply(
                ReplyAgent { name: agent.name, adapter, prompt: agent.prompt, args: agent.args },
            ),
            AgentType::Tap => AgentVariant::Tap(
                TapAgent { name: agent.name, adapter, prompt: agent.prompt, args: agent.args },
            ),
        }
    }

    /// The adapter configuration of the agent.
    pub open spec fn adapter_spec(&self) -> &AdapterConfig {
        match self {
            AgentVariant::Proxy(a) => &a.adapter,
            AgentVariant::Reply(a) => &a.adapter,
            AgentVariant::Tap(a) => &a.adapter,
        }
    }

    /// The adapter configuration of the agent.
    pub fn adapter(&self) -> (cfg: &AdapterConfig)
        ensures
            cfg == self.adapter_spec(),
    {
        match self {
            AgentVariant::Proxy(a) => &a.adapter,
            AgentVariant::Reply(a) => &a.adapter,
            AgentVariant::Tap(a) => &a.adapter,
        }
    }

    /// The first step of processing `msg`: a proxy or reply agent asks the
    /// model with its prompt followed by the message; a tap agent decides to
    /// change nothing, without asking.
    pub fn start(&self, msg: &str) -> (action: AgentAction)
        ensures
            match self {
                AgentVariant::Tap(_) => action matches AgentAction::Decided(AgentDecision::Unchanged),
                _ => action matches AgentAction::Complete(p) && p@ == prompt_text(
                    self.prompt_spec(),
                    msg@,
                ),
            },
    {
        match self {
            AgentVariant::Proxy(a) => a.start(msg),
            AgentVariant::Reply(a) => a.start(msg),
            AgentVariant::Tap(a) => a.start(msg),
        }
    }

    /// The decision once the model answered `completion`: a proxy agent
    /// replaces the message with it, a reply agent answers with it, a tap
    /// agent changes nothing.
    pub fn finish(&self, completion: String) -> (d: AgentDecision)
        ensures
            match self {
                AgentVariant::Proxy(_) => d matches AgentDecision::Modify(t) && t@ == completion@,
                AgentVariant::Reply(_) => d matches AgentDecision::Reply(t) && t@ == completion@,
                AgentVariant::Tap(_) => d is Unchanged,
            },
    {
        match self {
            AgentVariant::Proxy(a) => a.finish(completion),
            AgentVariant::Reply(a) => a.finish(completion),
            AgentVariant::Tap(a) => a.finish(completion),
        }
    }
}

impl vstd::std_specs::convert::FromSpecImpl<ProxyAgent> for AgentVariant {
    open spec fn obeys_from_spec() -> bool {
        true
    }

    open spec fn from_spec(v: ProxyAgent) -> AgentVariant {
        AgentVariant::Proxy(v)
    }
}

impl From<ProxyAgent> for AgentVariant {
    fn from(value: ProxyAgent) -> (v: AgentVariant) {
        AgentVariant::Proxy(value)
    }
}

impl vstd::std_specs::convert::FromSpecImpl<ReplyAgent> for AgentVariant {
    open spec fn obeys_from_spec() -> bool {
        true
    }

    open spec fn from_spec(v: ReplyAgent) -> AgentVariant {
        AgentVariant::Reply(v)
    }
}

impl From<ReplyAgent> for AgentVariant {
    fn from(value: ReplyAgent) -> (v: AgentVariant) {
        AgentVariant::Reply(value)
    }
}

impl vstd::std_specs::convert::FromSpecImpl<TapAgent> for AgentVariant {
    open spec fn obeys_from_spec() -> bool {
        true
    }

    open spec fn from_spec(v: TapAgent) -> AgentVariant {
        AgentVariant::Tap(v)
    }
}

impl From<TapAgent> for AgentVariant {
    fn from(value: TapAgent) -> (v: AgentVariant) {
        AgentVariant::Tap(value)
    }
}

} // verus!
