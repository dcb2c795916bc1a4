//! The state machine that the UI renders for each asynchronous action:
//! `Idle`, then `Loading` on every trigger, then `Ready` or `Error`.
use vstd::prelude::*;

use crate::entities::HealthStatus;
use crate::errors::DomainError;
use crate::usecases::{use_case_message, UseCaseError};

verus! {

/// What the UI shows for one action. `Idle` holds only before the first
/// trigger: no transition leads back to it.
#[derive(Debug, Clone, PartialEq)]
pub enum LoadState<T> {
    Idle,
    Loading,
    Ready(T),
    Error(String),
}

/// The state after a use case finished with `outcome`.
pub open spec fn settled<T>(outcome: Result<T, UseCaseError>, s: LoadState<T>) -> bool {
    match outcome {
        Ok(v) => s == LoadState::<T>::Ready(v),
        Err(e) => s matches LoadState::Error(m) && m@ == use_case_message(e),
    }
}

impl<T> LoadState<T> {
    pub fn is_loading(&self) -> (r: bool)
        ensures
            r == (*self is Loading),
    {
        match self {
            LoadState::Loading => true,
            _ => false,
        }
    }

    /// An action was triggered: whatever was shown before is dropped.
    pub fn start(&mut self)
        ensures
            *final(self) is Loading,
    {
        *self = LoadState::Loading;
    }

    /// The use case finished: its value, or its error's text.
    pub fn settle(&mut self, outcome: Result<T, UseCaseError>)
        requires
            *old(self) is Loading,
        ensures
            settled(outcome, *final(self)),
    {
        *self = match outcome {
            Ok(v) => LoadState::Ready(v),
            Err(e) => LoadState::Error(e.message()),
        };
    }

    /// The action could not go on because an input was refused: the same
    /// transition as a use case failing with `UseCaseError::Domain(e)`.
    pub fn reject(&mut self, e: DomainError)
        requires
            *old(self) is Loading,
        ensures
            settled(Err::<T, UseCaseError>(UseCaseError::Domain(e)), *final(self)),
    {
        self.settle(Err(UseCaseError::Domain(e)));
    }
}

/// The state of the health panel: the probe's state and when it last ended.
/// Every end of a probe, `Ready` or `Error`, records its time.
#[derive(Debug, Clone, PartialEq)]
pub struct HealthViewState {
    pub state: LoadState<HealthStatus>,
    /// Set when a probe ends, cleared when one starts.
    pub last_checked: Option<String>,
}

impl HealthViewState {
    pub fn idle() -> (r: Self)
        ensures
            r.state is Idle,
            r.last_checked is None,
    {
        HealthViewState { state: LoadState::Idle, last_checked: None }
    }

    /// A probe was triggered.
    pub fn start(&mut self)
        ensures
            final(self).state is Loading,
            final(self).last_checked is None,
    {
        self.state = LoadState::Loading;
        self.last_checked = None;
    }

    /// The probe ended at `checked_at` with `outcome`.
    pub fn settle(&mut self, outcome: Result<HealthStatus, UseCaseError>, checked_at: String)
        requires
            old(self).state is Loading,
        ensures
            settled(outcome, final(self).state),
            final(self).last_checked == Some(checked_at),
    {
        self.state.settle(outcome);
        self.last_checked = Some(checked_at);
    }

    /// The probe ended at `checked_at` without reaching the service, because
    /// the base URL was refused.
    pub fn reject(&mut self, e: DomainError, checked_at: String)
        requires
            old(self).state is Loading,
        ensures
            settled(Err::<HealthStatus, UseCaseError>(UseCaseError::Domain(e)), final(self).state),
            final(self).last_checked == Some(checked_at),
    {
        self.state.reject(e);
        self.last_checked = Some(checked_at);
    }
}

} // verus!
