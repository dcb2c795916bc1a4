//! Snapshots of the two successful remote responses.
use vstd::prelude::*;

verus! {

/// The answer to one question.
#[derive(Debug, Clone, PartialEq, Eq)]
pub struct AskResult {
    pub answer: String,
    /// Where the answer came from (a mock or the language model).
    pub source: String,
    /// Whether the service applied its system prompt.
    pub system_prompt_applied: bool,
}

/// The contents of an [`AskResult`].
pub struct AskResultView {
    pub answer: Seq<char>,
    pub source: Seq<char>,
    pub system_prompt_applied: bool,
}

impl View for AskResult {
    type V = AskResultView;

    open spec fn view(&self) -> AskResultView {
        AskResultView {
            answer: self.answer@,
            source: self.source@,
            system_prompt_applied: self.system_prompt_applied,
        }
    }
}

/// The state that the remote service reports of itself.
#[derive(Debug, Clone, PartialEq, Eq)]
pub struct HealthStatus {
    pub status: String,
    pub version: String,
    /// Whether the service answers through the language model rather than a mock.
    pub gigachat_enabled: bool,
}

/// The contents of a [`HealthStatus`].
pub struct HealthStatusView {
    pub status: Seq<char>,
    pub version: Seq<char>,
    pub gigachat_enabled: bool,
}

impl View for HealthStatus {
    type V = HealthStatusView;

    open spec fn view(&self) -> HealthStatusView {
        HealthStatusView {
            status: self.status@,
            version: self.version@,
            gigachat_enabled: self.gigachat_enabled,
        }
    }
}

} // verus!
