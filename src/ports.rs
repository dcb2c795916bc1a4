//! The two capabilities that the use cases depend on, and how they fail.
use vstd::prelude::*;

use crate::entities::{AskResult, HealthStatus};
use crate::value_objects::Question;

verus! {

/// A failure of a remote call or of its response.
#[derive(Debug, Clone, PartialEq, Eq)]
pub enum GatewayError {
    /// The request did not reach the service or its response was lost.
    Network(String),
    /// The service answered with a failure, described here.
    Api(String),
    /// The service claimed success but its body had the wrong shape.
    InvalidPayload,
}

/// The contents of a [`GatewayError`].
pub enum GatewayFault {
    Network(Seq<char>),
    Api(Seq<char>),
    InvalidPayload,
}

impl View for GatewayError {
    type V = GatewayFault;

    open spec fn view(&self) -> GatewayFault {
        match self {
            GatewayError::Network(d) => GatewayFault::Network(d@),
            GatewayError::Api(d) => GatewayFault::Api(d@),
            GatewayError::InvalidPayload => GatewayFault::InvalidPayload,
        }
    }
}

/// The contents of the outcome of a gateway call.
pub open spec fn outcome_view<T: View>(r: Result<T, GatewayError>) -> Result<T::V, GatewayFault> {
    match r {
        Ok(v) => Ok(v@),
        Err(e) => Err(e@),
    }
}

/// The text shown to a user for a gateway error.
pub open spec fn gateway_message(e: GatewayFault) -> Seq<char> {
    match e {
        GatewayFault::Network(d) => "Сетевая ошибка: "@ + d,
        GatewayFault::Api(d) => "Ошибка API: "@ + d,
        GatewayFault::InvalidPayload => "Некорректный ответ API"@,
    }
}

impl GatewayError {
    /// The text shown to a user for this error.
    pub fn message(&self) -> (r: String)
        ensures
            r@ == gateway_message(self@),
    {
        match self {
            GatewayError::Network(d) => {
                let mut r = "Сетевая ошибка: ".to_string();
                r.append(d.as_str());
                r
            },
            GatewayError::Api(d) => {
                let mut r = "Ошибка API: ".to_string();
                r.append(d.as_str());
                r
            },
            GatewayError::InvalidPayload => "Некорректный ответ API".to_string(),
        }
    }
}

/// Sends a question to the remote service.
pub trait ChatGateway {
    fn ask(&self, question: Question) -> Result<AskResult, GatewayError>;
}

/// Asks the remote service for its state.
pub trait HealthGateway {
    fn health(&self) -> Result<HealthStatus, GatewayError>;
}

} // verus!
