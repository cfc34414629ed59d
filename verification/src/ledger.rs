//! From an intent to the request for an unsigned block.
//!
//! The ledger service builds the block; this module decides what is asked of
//! it, and converts the amount of a `Send` into raw units on the way.

use crate::amount::{nano_to_raw, raw_amount, AmountError};
use crate::intent::{IntentModel, TransactionIntent};
use crate::text::own;
use vstd::prelude::*;

verus! {

/// Why no unsigned block came back.
#[derive(Clone, Copy, Debug, PartialEq, Eq, Structural)]
pub enum BuildError {
    /// The ledger service could not be reached.
    Network,
    /// The ledger service refused the request.
    LedgerRejected,
    /// Nothing is waiting to be received.
    NoReceivable,
    /// The amount of a `Send` has no raw value.
    InvalidAmount,
}

/// What to do with a `Send` whose amount has no raw value.
#[derive(Clone, Copy, Debug, PartialEq, Eq, Structural)]
pub enum AmountPolicy {
    /// Refuse the transaction.
    Reject,
    /// Send nothing: the amount counts as zero.
    TreatAsZero,
}

/// A ledger block that waits for its signature. The payload is the ledger's
/// own and is carried through unread.
#[derive(Debug, PartialEq, Eq)]
pub struct UnsignedBlock {
    payload: String,
}

impl View for UnsignedBlock {
    type V = Seq<char>;

    closed spec fn view(&self) -> Seq<char> {
        self.payload@
    }
}

impl Clone for UnsignedBlock {
    fn clone(&self) -> (copy: Self)
        ensures
            copy == *self,
    {
        UnsignedBlock { payload: self.payload.clone() }
    }
}

impl UnsignedBlock {
    /// Wraps a payload that the ledger service returned.
    pub fn new(payload: String) -> (block: Self)
        ensures
            block@ == payload@,
    {
        UnsignedBlock { payload }
    }

    /// The payload, as the ledger service returned it.
    pub fn payload(&self) -> (payload: &String)
        ensures
            payload@ == self@,
    {
        &self.payload
    }
}

/// What is asked of the ledger service.
#[derive(Debug, PartialEq, Eq)]
pub enum BlockRequest {
    /// The first block of an account: it has no predecessor.
    Open { account: String },
    /// A block that claims one outstanding receivable.
    Receive { account: String },
    /// A block that sends `raw` raw units to `receiver`.
    Send { account: String, receiver: String, raw: u128 },
}

/// Mathematical value of a [`BlockRequest`].
pub enum BlockRequestModel {
    Open { account: Seq<char> },
    Receive { account: Seq<char> },
    Send { account: Seq<char>, receiver: Seq<char>, raw: nat },
}

impl View for BlockRequest {
    type V = BlockRequestModel;

    open spec fn view(&self) -> BlockRequestModel {
        match self {
            BlockRequest::Open { account } => BlockRequestModel::Open { account: account@ },
            BlockRequest::Receive { account } => BlockRequestModel::Receive { account: account@ },
            BlockRequest::Send { account, receiver, raw } => BlockRequestModel::Send {
                account: account@,
                receiver: receiver@,
                raw: *raw as nat,
            },
        }
    }
}

/// The raw amount that a `Send` carries, or `None` where it is refused: an
/// exact conversion where there is one, else what the policy says.
pub open spec fn send_amount(amount: Seq<char>, policy: AmountPolicy) -> Option<nat> {
    match raw_amount(amount) {
        Ok(raw) => Some(raw),
        Err(_) => match policy {
            AmountPolicy::TreatAsZero => Some(0),
            AmountPolicy::Reject => None,
        },
    }
}

/// The request that an intent stands for, on behalf of `account`.
pub open spec fn block_request(
    intent: IntentModel,
    account: Seq<char>,
    policy: AmountPolicy,
) -> Result<BlockRequestModel, BuildError> {
    match intent {
        IntentModel::Open => Ok(BlockRequestModel::Open { account }),
        IntentModel::Receive => Ok(BlockRequestModel::Receive { account }),
        IntentModel::Send { receiver, amount } => match send_amount(amount, policy) {
            Some(raw) => Ok(BlockRequestModel::Send { account, receiver, raw }),
            None => Err(BuildError::InvalidAmount),
        },
    }
}

/// A planned request is the request that `expected` names.
pub open spec fn plans(
    result: Result<BlockRequest, BuildError>,
    expected: Result<BlockRequestModel, BuildError>,
) -> bool {
    match result {
        Ok(request) => expected == Ok::<BlockRequestModel, BuildError>(request@),
        Err(e) => expected == Err::<BlockRequestModel, BuildError>(e),
    }
}

/// The amount of a `Send` in raw units under `policy`.
pub fn send_raw(amount: &str, policy: AmountPolicy) -> (raw: Option<u128>)
    ensures
        match raw {
            Some(r) => send_amount(amount@, policy) == Some(r as nat),
            None => send_amount(amount@, policy) is None,
        },
{
    match nano_to_raw(amount) {
        Ok(raw) => Some(raw),
        Err(_) => match policy {
            AmountPolicy::TreatAsZero => Some(0),
            AmountPolicy::Reject => None,
        },
    }
}

/// Decides what to ask of the ledger service for `intent`.
///
/// `Open` and `Receive` always give a request. A `Send` gives one with its
/// amount in raw units; where the amount has none, the policy decides between
/// a request for zero and `InvalidAmount`.
pub fn plan_block(intent: &TransactionIntent, account: &str, policy: AmountPolicy) -> (result:
    Result<BlockRequest, BuildError>)
    ensures
        plans(result, block_request(intent@, account@, policy)),
{
    match intent {
        TransactionIntent::Open => Ok(BlockRequest::Open { account: own(account) }),
        TransactionIntent::Receive => Ok(BlockRequest::Receive { account: own(account) }),
        TransactionIntent::Send { receiver, amount } => match send_raw(amount.as_str(), policy) {
            Some(raw) => Ok(
                BlockRequest::Send { account: own(account), receiver: receiver.clone(), raw },
            ),
            None => Err(BuildError::InvalidAmount),
        },
    }
}

} // verus!
