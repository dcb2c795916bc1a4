//! Violations of the domain's input rules, found before any network call.
use vstd::prelude::*;

verus! {

/// An input that a value object refuses.
#[derive(Debug, Clone, Copy, PartialEq, Eq, Structural)]
pub enum DomainError {
    /// The question is empty or only whitespace.
    EmptyQuestion,
    /// The base URL of the API is empty or only whitespace.
    EmptyBaseUrl,
}

/// The text shown to a user for a domain error.
pub open spec fn domain_message(e: DomainError) -> Seq<char> {
    match e {
        DomainError::EmptyQuestion => "Вопрос не должен быть пустым"@,
        DomainError::EmptyBaseUrl => "Базовый URL API не задан"@,
    }
}

impl DomainError {
    /// The text shown to a user for this error.
    pub fn message(&self) -> (r: String)
        ensures
            r@ == domain_message(*self),
    {
        match self {
            DomainError::EmptyQuestion => "Вопрос не должен быть пустым".to_string(),
            DomainError::EmptyBaseUrl => "Базовый URL API не задан".to_string(),
        }
    }
}

} // verus!
