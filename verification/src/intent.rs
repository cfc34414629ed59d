//! What the user wants to do with the account.

use crate::text::{own, same_text};
use vstd::prelude::*;

verus! {

/// Kind of a ledger block.
#[derive(Clone, Copy, Debug, PartialEq, Eq, Structural)]
pub enum Subtype {
    Open,
    Receive,
    Send,
}

/// A transaction that the user asks for. `Send` names the receiving account
/// and the amount in Nano, as the user wrote it.
#[derive(Debug, PartialEq, Eq)]
pub enum TransactionIntent {
    Open,
    Receive,
    Send { receiver: String, amount: String },
}

/// Mathematical value of a [`TransactionIntent`].
pub enum IntentModel {
    Open,
    Receive,
    Send { receiver: Seq<char>, amount: Seq<char> },
}

impl View for TransactionIntent {
    type V = IntentModel;

    open spec fn view(&self) -> IntentModel {
        match self {
            TransactionIntent::Open => IntentModel::Open,
            TransactionIntent::Receive => IntentModel::Receive,
            TransactionIntent::Send { receiver, amount } => IntentModel::Send {
                receiver: receiver@,
                amount: amount@,
            },
        }
    }
}

impl Clone for TransactionIntent {
    fn clone(&self) -> (copy: Self)
        ensures
            copy == *self,
    {
        match self {
            TransactionIntent::Open => TransactionIntent::Open,
            TransactionIntent::Receive => TransactionIntent::Receive,
            TransactionIntent::Send { receiver, amount } => TransactionIntent::Send {
                receiver: receiver.clone(),
                amount: amount.clone(),
            },
        }
    }
}

impl IntentModel {
    /// The kind of block that carries this intent.
    pub open spec fn subtype(self) -> Subtype {
        match self {
            IntentModel::Open => Subtype::Open,
            IntentModel::Receive => Subtype::Receive,
            IntentModel::Send { .. } => Subtype::Send,
        }
    }

    /// A `Send` names a receiver and an amount; the others need nothing.
    pub open spec fn is_complete(self) -> bool {
        match self {
            IntentModel::Send { receiver, amount } => receiver.len() > 0 && amount.len() > 0,
            _ => true,
        }
    }

    /// The intent that a filled form stands for: `"OPEN"` and `"RECEIVE"`
    /// select those two, every other kind is a `Send`.
    pub open spec fn of_form(kind: Seq<char>, receiver: Seq<char>, amount: Seq<char>) -> IntentModel {
        if kind == "OPEN"@ {
            IntentModel::Open
        } else if kind == "RECEIVE"@ {
            IntentModel::Receive
        } else {
            IntentModel::Send { receiver, amount }
        }
    }
}

impl TransactionIntent {
    /// Reads the intent off the fields of the transaction form.
    pub fn from_form(kind: &str, receiver: &str, amount: &str) -> (intent: Self)
        ensures
            intent@ == IntentModel::of_form(kind@, receiver@, amount@),
    {
        if same_text(kind, "OPEN") {
            TransactionIntent::Open
        } else if same_text(kind, "RECEIVE") {
            TransactionIntent::Receive
        } else {
            TransactionIntent::Send { receiver: own(receiver), amount: own(amount) }
        }
    }

    /// The kind of block that carries this intent.
    pub fn subtype(&self) -> (kind: Subtype)
        ensures
            kind == self@.subtype(),
    {
        match self {
            TransactionIntent::Open => Subtype::Open,
            TransactionIntent::Receive => Subtype::Receive,
            TransactionIntent::Send { .. } => Subtype::Send,
        }
    }

    /// Whether the intent holds all that its kind needs.
    pub fn is_complete(&self) -> (complete: bool)
        ensures
            complete == self@.is_complete(),
    {
        match self {
            TransactionIntent::Send { receiver, amount } => {
                !receiver.as_str().is_empty() && !amount.as_str().is_empty()
            },
            _ => true,
        }
    }
}

} // verus!
