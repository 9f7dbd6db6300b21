//! The agent's capability card: the static descriptor served beside the
//! protocol endpoint.

use vstd::prelude::*;

verus! {

/// Authentication schemes and credentials for an agent.
#[derive(Debug, Clone, PartialEq)]
pub struct AgentAuthentication {
    /// Supported authentication schemes.
    pub schemes: Vec<String>,
    /// Credentials for authentication, if any.
    pub credentials: Option<String>,
}

/// Capabilities of an agent.
#[derive(Debug, Clone, PartialEq)]
pub struct AgentCapabilities {
    /// Whether the agent supports streaming responses.
    pub streaming: Option<bool>,
    /// Whether the agent supports push notifications.
    pub push_notifications: Option<bool>,
    /// Whether the agent supports state transition history.
    pub state_transition_history: Option<bool>,
}

impl Default for AgentCapabilities {
    /// Capabilities with every flag left unstated.
    fn default() -> (r: Self)
        ensures
            r.streaming is None,
            r.push_notifications is None,
            r.state_transition_history is None,
    {
        AgentCapabilities { streaming: None, push_notifications: None, state_transition_history: None }
    }
}

/// Provider or organization behind an agent.
#[derive(Debug, Clone, PartialEq)]
pub struct AgentProvider {
    /// Name of the organization providing the agent.
    pub organization: String,
    /// URL associated with the agent provider, if any.
    pub url: Option<String>,
}

/// A specific skill or capability offered by an agent.
#[derive(Debug, Clone, PartialEq)]
pub struct AgentSkill {
    /// Unique identifier for the skill.
    pub id: String,
    /// Human-readable name of the skill.
    pub name: String,
    /// Optional description of the skill.
    pub description: Option<String>,
    /// Optional tags for categorization.
    pub tags: Option<Vec<String>>,
    /// Optional example inputs or use cases.
    pub examples: Option<Vec<String>>,
    /// Optional input modes supported.
    pub input_modes: Option<Vec<String>>,
    /// Optional output modes supported.
    pub output_modes: Option<Vec<String>>,
}

/// Metadata card for an agent.
#[derive(Debug, Clone, PartialEq)]
pub struct AgentCard {
    /// Name of the agent.
    pub name: String,
    /// Optional description of the agent.
    pub description: Option<String>,
    /// Base URL endpoint for interacting with the agent.
    pub url: String,
    /// Information about the provider of the agent, if any.
    pub provider: Option<AgentProvider>,
    /// Version identifier for the agent or its API.
    pub version: String,
    /// Optional URL pointing to the agent's documentation.
    pub documentation_url: Option<String>,
    /// Capabilities supported by the agent.
    pub capabilities: AgentCapabilities,
    /// Authentication details required to interact with the agent, if any.
    pub authentication: Option<AgentAuthentication>,
    /// Default input modes supported by the agent.
    pub default_input_modes: Option<Vec<String>>,
    /// Default output modes supported by the agent.
    pub default_output_modes: Option<Vec<String>>,
    /// Specific skills offered by the agent.
    pub skills: Vec<AgentSkill>,
}

} // verus!
