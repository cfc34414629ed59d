//! The signing record of a session: the keys of the shared account, the
//! ceremony's parameters, and the block that waits to be signed.
//!
//! The record lives in one file per session. Reading and writing the file is
//! the caller's part; what came out of the file enters here as plain parts
//! and is checked before it becomes a record.

use crate::intent::Subtype;
use crate::ledger::UnsignedBlock;
use vstd::prelude::*;
use vstd::string::*;

verus! {

/// Length of a public key and of a public key share, in bytes.
pub const KEY_BYTES: usize = 32;

/// How many hold a share of the key, and how many of them must sign.
#[derive(Clone, Copy, Debug, PartialEq, Eq, Structural)]
pub struct CeremonyParams {
    pub participants: u32,
    pub threshold: u32,
}

impl CeremonyParams {
    /// At least one signer is needed, and no more than there are participants.
    pub open spec fn valid(self) -> bool {
        1 <= self.threshold <= self.participants
    }

    /// Whether the parameters describe a session that can sign.
    pub fn is_valid(&self) -> (valid: bool)
        ensures
            valid == self.valid(),
    {
        1 <= self.threshold && self.threshold <= self.participants
    }
}

/// Why the record could not be read or written.
#[derive(Clone, Copy, Debug, PartialEq, Eq, Structural)]
pub enum IoError {
    /// There is no file at the session's path.
    NotFound,
    /// The file does not hold a valid record.
    Corrupt,
    /// The file could not be written.
    Unwritable,
}

impl IoError {
    /// The message shown for this error.
    pub open spec fn text(self) -> Seq<char> {
        match self {
            IoError::NotFound => "Couldn't open the file."@,
            IoError::Corrupt => "File has invalid format."@,
            IoError::Unwritable => "Couldn't write the file."@,
        }
    }

    /// The message shown for this error.
    pub fn message(&self) -> (message: String)
        ensures
            message@ == self.text(),
    {
        match self {
            IoError::NotFound => String::from_str("Couldn't open the file."),
            IoError::Corrupt => String::from_str("File has invalid format."),
            IoError::Unwritable => String::from_str("Couldn't write the file."),
        }
    }
}

/// A block queued for signing, with its kind.
#[derive(Debug, PartialEq, Eq)]
pub struct PendingBlock {
    pub block: UnsignedBlock,
    pub subtype: Subtype,
}

impl View for PendingBlock {
    type V = (Seq<char>, Subtype);

    open spec fn view(&self) -> (Seq<char>, Subtype) {
        (self.block@, self.subtype)
    }
}

impl Clone for PendingBlock {
    fn clone(&self) -> (copy: Self)
        ensures
            copy == *self,
    {
        PendingBlock { block: self.block.clone(), subtype: self.subtype }
    }
}

/// Mathematical value of an optional pending block.
pub open spec fn pending_view(pending: Option<PendingBlock>) -> Option<(Seq<char>, Subtype)> {
    match pending {
        Some(p) => Some(p@),
        None => None,
    }
}

/// The plain values that a session file holds.
#[derive(Debug, PartialEq, Eq)]
pub struct RecordParts {
    pub public_aggregated_key: Vec<u8>,
    pub own_public_share: Vec<u8>,
    pub participants: u32,
    pub threshold: u32,
    pub pending: Option<PendingBlock>,
}

/// Mathematical value of [`RecordParts`], and of a [`SignInputRecord`]: a
/// record is its parts, known to be valid.
pub struct RecordModel {
    pub public_aggregated_key: Seq<u8>,
    pub own_public_share: Seq<u8>,
    pub params: CeremonyParams,
    pub pending: Option<(Seq<char>, Subtype)>,
}

impl RecordModel {
    /// Both keys have the length of a key, and the parameters are valid.
    pub open spec fn valid(self) -> bool {
        &&& self.public_aggregated_key.len() == KEY_BYTES
        &&& self.own_public_share.len() == KEY_BYTES
        &&& self.params.valid()
    }

    /// The same record with `block` queued for signing.
    pub open spec fn with_pending(self, block: Seq<char>, subtype: Subtype) -> RecordModel {
        RecordModel { pending: Some((block, subtype)), ..self }
    }
}

impl View for RecordParts {
    type V = RecordModel;

    open spec fn view(&self) -> RecordModel {
        RecordModel {
            public_aggregated_key: self.public_aggregated_key@,
            own_public_share: self.own_public_share@,
            params: CeremonyParams { participants: self.participants, threshold: self.threshold },
            pending: pending_view(self.pending),
        }
    }
}

/// What a session file turns into when it is read: the record that the
/// parts describe, or `Corrupt` where they describe none.
pub open spec fn decode(parts: RecordModel) -> Result<RecordModel, IoError> {
    if parts.valid() {
        Ok(parts)
    } else {
        Err(IoError::Corrupt)
    }
}

/// What is written to the session file for a record.
pub open spec fn encode(record: RecordModel) -> RecordModel {
    record
}

/// The durable record of a session. Every record is valid: its keys have the
/// length of a key and `1 <= threshold <= participants`.
#[derive(Debug, PartialEq, Eq)]
pub struct SignInputRecord {
    public_aggregated_key: Vec<u8>,
    own_public_share: Vec<u8>,
    params: CeremonyParams,
    pending: Option<PendingBlock>,
}

impl View for SignInputRecord {
    type V = RecordModel;

    closed spec fn view(&self) -> RecordModel {
        RecordModel {
            public_aggregated_key: self.public_aggregated_key@,
            own_public_share: self.own_public_share@,
            params: self.params,
            pending: pending_view(self.pending),
        }
    }
}

/// A copy of an optional pending block.
fn copy_pending(pending: &Option<PendingBlock>) -> (copy: Option<PendingBlock>)
    ensures
        copy == *pending,
{
    match pending {
        Some(p) => Some(p.clone()),
        None => None,
    }
}

impl Clone for SignInputRecord {
    fn clone(&self) -> (copy: Self)
        ensures
            copy@ == self@,
    {
        proof {
            use_type_invariant(self);
        }
        SignInputRecord {
            public_aggregated_key: self.public_aggregated_key.clone(),
            own_public_share: self.own_public_share.clone(),
            params: self.params,
            pending: copy_pending(&self.pending),
        }
    }
}

impl SignInputRecord {
    #[verifier::type_invariant]
    spec fn well_formed(self) -> bool {
        self@.valid()
    }

    /// Checks the parts read from a session file and makes a record of them.
    /// Parts that are not valid are `Corrupt`.
    pub fn from_parts(parts: RecordParts) -> (result: Result<SignInputRecord, IoError>)
        ensures
            match result {
                Ok(record) => decode(parts@) == Ok::<RecordModel, IoError>(record@),
                Err(e) => decode(parts@) == Err::<RecordModel, IoError>(e),
            },
    {
        let params = CeremonyParams { participants: parts.participants, threshold: parts.threshold };
        if parts.public_aggregated_key.len() == KEY_BYTES && parts.own_public_share.len()
            == KEY_BYTES && params.is_valid() {
            Ok(
                SignInputRecord {
                    public_aggregated_key: parts.public_aggregated_key,
                    own_public_share: parts.own_public_share,
                    params,
                    pending: parts.pending,
                },
            )
        } else {
            Err(IoError::Corrupt)
        }
    }

    /// Takes the record apart into what is written to the session file.
    pub fn into_parts(self) -> (parts: RecordParts)
        ensures
            parts@ == encode(self@),
    {
        RecordParts {
            public_aggregated_key: self.public_aggregated_key,
            own_public_share: self.own_public_share,
            participants: self.params.participants,
            threshold: self.params.threshold,
            pending: self.pending,
        }
    }

    /// The key of the shared account.
    pub fn public_aggregated_key(&self) -> (key: &Vec<u8>)
        ensures
            key@ == self@.public_aggregated_key,
            key@.len() == KEY_BYTES,
    {
        proof {
            use_type_invariant(self);
        }
        &self.public_aggregated_key
    }

    /// This participant's public key share.
    pub fn own_public_share(&self) -> (share: &Vec<u8>)
        ensures
            share@ == self@.own_public_share,
            share@.len() == KEY_BYTES,
    {
        proof {
            use_type_invariant(self);
        }
        &self.own_public_share
    }

    /// The ceremony's parameters.
    pub fn params(&self) -> (params: CeremonyParams)
        ensures
            params == self@.params,
            self@.valid(),
    {
        proof {
            use_type_invariant(self);
        }
        self.params
    }

    /// The block queued for signing, if there is one.
    pub fn pending(&self) -> (pending: &Option<PendingBlock>)
        ensures
            pending_view(*pending) == self@.pending,
    {
        &self.pending
    }

    /// Queues `block` for signing in place of what was queued before. Keys and
    /// parameters stay as they are.
    pub fn queue(self, block: UnsignedBlock, subtype: Subtype) -> (queued: SignInputRecord)
        ensures
            queued@ == self@.with_pending(block@, subtype),
    {
        proof {
            use_type_invariant(&self);
        }
        SignInputRecord {
            public_aggregated_key: self.public_aggregated_key,
            own_public_share: self.own_public_share,
            params: self.params,
            pending: Some(PendingBlock { block, subtype }),
        }
    }
}

/// A record written to its file and read back is the same record.
pub proof fn lemma_store_then_load(record: RecordModel)
    requires
        record.valid(),
    ensures
        decode(encode(record)) == Ok::<RecordModel, IoError>(record),
{
}

/// Queuing a block keeps a record valid and changes nothing but the queue.
pub proof fn lemma_queue_keeps_valid(record: RecordModel, block: Seq<char>, subtype: Subtype)
    requires
        record.valid(),
    ensures
        record.with_pending(block, subtype).valid(),
        record.with_pending(block, subtype).pending == Some((block, subtype)),
        record.with_pending(block, subtype).public_aggregated_key == record.public_aggregated_key,
        record.with_pending(block, subtype).own_public_share == record.own_public_share,
        record.with_pending(block, subtype).params == record.params,
{
}

} // verus!
