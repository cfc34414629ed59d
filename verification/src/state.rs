//! The observable progress of one operation.

use vstd::prelude::*;

verus! {

/// Real-time state of an operation, as shown to the user.
#[derive(Debug, PartialEq, Eq)]
pub enum TransactionState {
    Idle,
    Processing,
    Successful,
    Error(String),
}

/// Mathematical value of a [`TransactionState`]: the message is a sequence of characters.
pub enum StateModel {
    Idle,
    Processing,
    Successful,
    Error(Seq<char>),
}

impl View for TransactionState {
    type V = StateModel;

    open spec fn view(&self) -> StateModel {
        match self {
            TransactionState::Idle => StateModel::Idle,
            TransactionState::Processing => StateModel::Processing,
            TransactionState::Successful => StateModel::Successful,
            TransactionState::Error(message) => StateModel::Error(message@),
        }
    }
}

impl Clone for TransactionState {
    fn clone(&self) -> (copy: Self)
        ensures
            copy == *self,
    {
        match self {
            TransactionState::Idle => TransactionState::Idle,
            TransactionState::Processing => TransactionState::Processing,
            TransactionState::Successful => TransactionState::Successful,
            TransactionState::Error(message) => TransactionState::Error(message.clone()),
        }
    }
}

impl StateModel {
    /// A new invocation may begin only from `Idle` or from a prior `Error`.
    pub open spec fn accepts_start(self) -> bool {
        self is Idle || self is Error
    }

    /// `Successful` and `Error` end an invocation.
    pub open spec fn is_terminal(self) -> bool {
        self is Successful || self is Error
    }
}

impl TransactionState {
    /// Whether a new invocation may begin in this state.
    pub fn accepts_start(&self) -> (b: bool)
        ensures
            b == self@.accepts_start(),
    {
        match self {
            TransactionState::Idle => true,
            TransactionState::Error(_) => true,
            _ => false,
        }
    }

    /// Whether this state ends an invocation.
    pub fn is_terminal(&self) -> (b: bool)
        ensures
            b == self@.is_terminal(),
    {
        match self {
            TransactionState::Successful => true,
            TransactionState::Error(_) => true,
            _ => false,
        }
    }
}

} // verus!
