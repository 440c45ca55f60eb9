//! Commitment levels: the confidence required of a queried ledger state.

use vstd::prelude::*;

verus! {

/// How final a queried ledger state must be, from the lowest confidence to
/// the highest: processed, confirmed, finalized.
#[derive(Clone, Copy, Debug, PartialEq, Eq, Hash)]
pub enum CommitmentLevel {
    Processed,
    Confirmed,
    Finalized,
}

impl Default for CommitmentLevel {
    /// The default level is the lowest, processed.
    fn default() -> (r: Self)
        ensures
            r is Processed,
    {
        CommitmentLevel::Processed
    }
}

/// A commitment level carried as client configuration.
#[derive(Clone, Copy, Debug, PartialEq, Eq, Hash)]
pub struct CommitmentConfig {
    pub commitment: CommitmentLevel,
}

impl CommitmentConfig {
    pub fn processed() -> (r: Self)
        ensures
            r.commitment is Processed,
    {
        CommitmentConfig { commitment: CommitmentLevel::Processed }
    }

    pub fn confirmed() -> (r: Self)
        ensures
            r.commitment is Confirmed,
    {
        CommitmentConfig { commitment: CommitmentLevel::Confirmed }
    }

    pub fn finalized() -> (r: Self)
        ensures
            r.commitment is Finalized,
    {
        CommitmentConfig { commitment: CommitmentLevel::Finalized }
    }

    pub fn is_processed(&self) -> (r: bool)
        ensures
            r == (self.commitment is Processed),
    {
        match self.commitment {
            CommitmentLevel::Processed => true,
            _ => false,
        }
    }

    pub fn is_confirmed(&self) -> (r: bool)
        ensures
            r == (self.commitment is Confirmed),
    {
        match self.commitment {
            CommitmentLevel::Confirmed => true,
            _ => false,
        }
    }

    pub fn is_finalized(&self) -> (r: bool)
        ensures
            r == (self.commitment is Finalized),
    {
        match self.commitment {
            CommitmentLevel::Finalized => true,
            _ => false,
        }
    }
}

} // verus!
