//! Request orchestration for a browser client of a question-answering API:
//! validated value objects, gateway ports, use cases, the HTTP response
//! handling of the adapter and the load-state machine behind the UI.
pub mod api_client;
pub mod config;
pub mod entities;
pub mod errors;
pub mod json;
pub mod labels;
pub mod load_state;
pub mod ports;
pub mod text;
pub mod usecases;
pub mod value_objects;

pub use api_client::ApiClient;
pub use config::AppConfig;
pub use entities::{AskResult, HealthStatus};
pub use errors::DomainError;
pub use load_state::{HealthViewState, LoadState};
pub use ports::{ChatGateway, GatewayError, HealthGateway};
pub use usecases::{AskQuestionUseCase, CheckHealthUseCase, UseCaseError};
pub use value_objects::{ApiBaseUrl, Question};
