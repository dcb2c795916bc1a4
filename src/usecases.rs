//! The two scenarios of the client: ask a question, check the service.
use vstd::prelude::*;

use crate::entities::{AskResult, HealthStatus};
use crate::errors::{domain_message, DomainError};
use crate::ports::{gateway_message, ChatGateway, GatewayError, HealthGateway};
use crate::text::blank;
use crate::value_objects::Question;

verus! {

/// The one error that a use case hands to its caller.
#[derive(Debug, Clone, PartialEq, Eq)]
pub enum UseCaseError {
    Domain(DomainError),
    Gateway(GatewayError),
}

/// The text shown to a user for a use-case error.
pub open spec fn use_case_message(e: UseCaseError) -> Seq<char> {
    match e {
        UseCaseError::Domain(d) => "Ошибка домена: "@ + domain_message(d),
        UseCaseError::Gateway(g) => "Ошибка шлюза: "@ + gateway_message(g@),
    }
}

impl UseCaseError {
    /// The text shown to a user for this error.
    pub fn message(&self) -> (r: String)
        ensures
            r@ == use_case_message(*self),
    {
        match self {
            UseCaseError::Domain(d) => {
                let mut r = "Ошибка домена: ".to_string();
                r.append(d.message().as_str());
                r
            },
            UseCaseError::Gateway(g) => {
                let mut r = "Ошибка шлюза: ".to_string();
                r.append(g.message().as_str());
                r
            },
        }
    }
}

/// A gateway's outcome as a use case reports it: a success unchanged, a
/// failure wrapped as `UseCaseError::Gateway`.
pub open spec fn lifted<T>(r: Result<T, GatewayError>) -> Result<T, UseCaseError> {
    match r {
        Ok(v) => Ok(v),
        Err(e) => Err(UseCaseError::Gateway(e)),
    }
}

/// Reports a gateway's outcome: a success unchanged, a failure wrapped as
/// `UseCaseError::Gateway`.
pub fn lift_gateway_outcome<T>(r: Result<T, GatewayError>) -> (out: Result<T, UseCaseError>)
    ensures
        out == lifted(r),
{
    match r {
        Ok(v) => Ok(v),
        Err(e) => Err(UseCaseError::Gateway(e)),
    }
}

/// The question that `raw` holds, or `UseCaseError::Domain(EmptyQuestion)`
/// when `raw` is blank: the step that the ask scenario takes before any
/// network access.
pub fn validate_question(raw: &str) -> (r: Result<Question, UseCaseError>)
    ensures
        blank(raw@) ==> r == Err::<Question, UseCaseError>(
            UseCaseError::Domain(DomainError::EmptyQuestion),
        ),
        !blank(raw@) ==> (r matches Ok(q) && q@ == raw@),
{
    match Question::try_new(raw) {
        Ok(q) => Ok(q),
        Err(e) => Err(UseCaseError::Domain(e)),
    }
}

/// Validates a question and sends it through a [`ChatGateway`].
pub struct AskQuestionUseCase<G: ChatGateway> {
    gateway: G,
}

impl<G: ChatGateway> AskQuestionUseCase<G> {
    /// The gateway that this use case sends through.
    pub closed spec fn gateway(&self) -> G {
        self.gateway
    }

    pub fn new(gateway: G) -> (r: Self)
        ensures
            r.gateway() == gateway,
    {
        AskQuestionUseCase { gateway }
    }

    /// A blank question fails with `EmptyQuestion` before the gateway is
    /// reached; any other is handed to the gateway as typed, and the
    /// gateway's outcome comes back through [`lift_gateway_outcome`].
    pub fn execute(&self, question: String) -> (r: Result<AskResult, UseCaseError>)
        ensures
            blank(question@) ==> r == Err::<AskResult, UseCaseError>(
                UseCaseError::Domain(DomainError::EmptyQuestion),
            ),
            !blank(question@) ==> exists|g: Result<AskResult, GatewayError>| r == lifted(g),
    {
        match validate_question(question.as_str()) {
            Err(e) => Err(e),
            Ok(q) => {
                let g = self.gateway.ask(q);
                lift_gateway_outcome(g)
            },
        }
    }
}

/// Asks a [`HealthGateway`] for the state of the service.
pub struct CheckHealthUseCase<G: HealthGateway> {
    gateway: G,
}

impl<G: HealthGateway> CheckHealthUseCase<G> {
    /// The gateway that this use case asks.
    pub closed spec fn gateway(&self) -> G {
        self.gateway
    }

    pub fn new(gateway: G) -> (r: Self)
        ensures
            r.gateway() == gateway,
    {
        CheckHealthUseCase { gateway }
    }

    /// The gateway's outcome, through [`lift_gateway_outcome`]: a status
    /// unchanged, a failure as `UseCaseError::Gateway`.
    pub fn execute(&self) -> (r: Result<HealthStatus, UseCaseError>)
        ensures
            exists|g: Result<HealthStatus, GatewayError>| r == lifted(g),
    {
        let g = self.gateway.health();
        lift_gateway_outcome(g)
    }
}

} // verus!
