//! The error taxonomy of the chain core.
//!
//! Verification and evaluation functions return these values rather than
//! aborting; the three wrapped kinds carry a diagnostic from an external
//! collaborator (contract execution, storage, wire protocol) unchanged.

use vstd::prelude::*;
use crate::hashes::BlockHeaderHash;

verus! {

/// Everything that can go wrong in this core, plus the wrapped failures of
/// the external collaborators.
#[derive(Debug, Clone, PartialEq, Eq)]
pub enum Error {
    /// Fee computation disallowed by policy.
    InvalidFee,
    /// Structural violation in an anchored block, with context.
    InvalidStacksBlock(String),
    /// Structural or chaining violation in a microblock, with context and
    /// the offending header hash.
    InvalidStacksMicroblock(String, BlockHeaderHash),
    /// Malformed or unauthorizable transaction.
    InvalidStacksTransaction(String),
    /// A declared post-condition did not hold, with a description of the
    /// first violated condition.
    PostConditionFailed(String),
    /// The requested block does not exist.
    NoSuchBlockError,
    /// The chain-state database is unusable.
    InvalidChainstateDB,
    /// Appending would push the epoch past its byte budget.
    BlockTooBigError,
    /// The microblock stream cannot accept more data.
    MicroblockStreamTooLongError,
    /// A spending condition is structurally incompatible with the requested
    /// operation.
    IncompatibleSpendingConditionError,
    /// Failure inside the contract-execution collaborator, passed through.
    ClarityError(String),
    /// Failure inside the storage collaborator, passed through.
    DBError(String),
    /// Failure inside the wire-protocol collaborator, passed through.
    NetError(String),
    /// Failure inside the state-commitment trie, passed through.
    MARFError(String),
}

impl Error {
    /// The descriptive text of the error: the carried context where there is
    /// one, a fixed description otherwise.
    pub open spec fn spec_description(&self) -> Seq<char> {
        match self {
            Error::InvalidFee => "Invalid fee"@,
            Error::InvalidStacksBlock(s) => s@,
            Error::InvalidStacksMicroblock(s, _) => s@,
            Error::InvalidStacksTransaction(s) => s@,
            Error::PostConditionFailed(s) => s@,
            Error::NoSuchBlockError => "No such Stacks block"@,
            Error::InvalidChainstateDB => "Invalid chainstate database"@,
            Error::BlockTooBigError => "Too much data in block"@,
            Error::MicroblockStreamTooLongError => "Too many microblocks in stream"@,
            Error::IncompatibleSpendingConditionError => {
                "Spending condition is incompatible with this operation"@
            },
            Error::ClarityError(s) => s@,
            Error::DBError(s) => s@,
            Error::NetError(s) => s@,
            Error::MARFError(s) => s@,
        }
    }

    /// A diagnostic for the error, as `spec_description` states it.
    pub fn description(&self) -> (r: &str)
        ensures
            r@ == self.spec_description(),
    {
        match self {
            Error::InvalidFee => "Invalid fee",
            Error::InvalidStacksBlock(s) => s.as_str(),
            Error::InvalidStacksMicroblock(s, _) => s.as_str(),
            Error::InvalidStacksTransaction(s) => s.as_str(),
            Error::PostConditionFailed(s) => s.as_str(),
            Error::NoSuchBlockError => "No such Stacks block",
            Error::InvalidChainstateDB => "Invalid chainstate database",
            Error::BlockTooBigError => "Too much data in block",
            Error::MicroblockStreamTooLongError => "Too many microblocks in stream",
            Error::IncompatibleSpendingConditionError => {
                "Spending condition is incompatible with this operation"
            },
            Error::ClarityError(s) => s.as_str(),
            Error::DBError(s) => s.as_str(),
            Error::NetError(s) => s.as_str(),
            Error::MARFError(s) => s.as_str(),
        }
    }
}

} // verus!
