//! Timeouts and timeout certificates for the 2-chain commit protocol.
//!
//! When a round times out, validators can form a timeout certificate (TC)
//! proving that 2f+1 validators timed out, which allows safe round advancement.
use vstd::prelude::*;

use std::sync::Arc;

use crate::error::Error;
use crate::testing::MockSignature;

verus! {

/// A timeout message: a validator timed out in `round` of `epoch`, and the
/// highest quorum certificate it knows of has round `hqc_round`.
#[derive(Clone, Copy, Debug, PartialEq, Eq, Structural)]
pub struct TwoChainTimeout {
    /// The epoch this timeout is for
    pub epoch: u64,
    /// The round that timed out
    pub round: u64,
    /// The round of the highest quorum certificate known
    pub hqc_round: u64,
}

impl Default for TwoChainTimeout {
    fn default() -> (t: Self)
        ensures
            t == (TwoChainTimeout { epoch: 0, round: 0, hqc_round: 0 }),
    {
        TwoChainTimeout { epoch: 0, round: 0, hqc_round: 0 }
    }
}

impl TwoChainTimeout {
    /// Creates a timeout.
    pub fn new(epoch: u64, round: u64, hqc_round: u64) -> (t: Self)
        ensures
            t == (TwoChainTimeout { epoch, round, hqc_round }),
    {
        TwoChainTimeout { epoch, round, hqc_round }
    }

    /// The epoch.
    pub fn epoch(&self) -> (e: u64)
        ensures
            e == self.epoch,
    {
        self.epoch
    }

    /// The round that timed out.
    pub fn round(&self) -> (r: u64)
        ensures
            r == self.round,
    {
        self.round
    }

    /// The round of the highest quorum certificate known.
    pub fn hqc_round(&self) -> (r: u64)
        ensures
            r == self.hqc_round,
    {
        self.hqc_round
    }

    /// Checks internal consistency: the certified round must be below the
    /// round that timed out.
    pub fn verify(&self) -> (r: Result<(), Error>)
        ensures
            r is Ok == (self.hqc_round < self.round),
            r is Err ==> r == Err::<(), Error>(Error::InvalidTimeout { hqc_round: self.hqc_round, round: self.round }),
    {
        if self.hqc_round >= self.round {
            return Err(Error::InvalidTimeout { hqc_round: self.hqc_round, round: self.round });
        }
        Ok(())
    }
}

/// A timeout certificate: proof that a quorum of validators timed out in
/// `round`, with the highest certified round and highest timeout-certified
/// round they referenced.
#[derive(Clone, Debug, PartialEq, Eq)]
pub struct TwoChainTimeoutCertificate {
    /// The epoch this timeout certificate is for
    pub epoch: u64,
    /// The round that timed out
    pub round: u64,
    /// The round of the highest quorum certificate referenced
    pub hqc_round: u64,
    /// The highest timeout certificate round referenced (for chained TCs)
    pub highest_tc_round: u64,
    /// The timeout object that was certified
    pub timeout: Arc<TwoChainTimeout>,
    /// The aggregated signature from all validators who timed out
    pub aggregated_signature: MockSignature,
}

/// The outcome of checking a timeout certificate's internal consistency.
pub open spec fn tc_verify_result(tc: TwoChainTimeoutCertificate) -> Result<(), Error> {
    if tc.timeout.hqc_round >= tc.timeout.round {
        Err(Error::InvalidTimeout { hqc_round: tc.timeout.hqc_round, round: tc.timeout.round })
    } else if tc.hqc_round >= tc.round {
        Err(Error::InvalidTcHqcRound { hqc_round: tc.hqc_round, round: tc.round })
    } else if tc.highest_tc_round >= tc.round {
        Err(Error::InvalidTcHighestTcRound { highest_tc_round: tc.highest_tc_round, round: tc.round })
    } else {
        Ok(())
    }
}

/// A timeout certificate verifies exactly when its rounds are ordered: the
/// certified timeout's highest certified round is below that timeout's round,
/// and both the certificate's highest certified round and its highest
/// timeout-certified round are below the certificate's round. A certificate
/// whose timeout is sound but whose highest certified round is not below its
/// round is refused with that pair of rounds.
pub proof fn lemma_tc_verifies_when_rounds_ordered(tc: TwoChainTimeoutCertificate)
    ensures
        tc_verify_result(tc) is Ok <==> (tc.timeout.hqc_round < tc.timeout.round && tc.hqc_round < tc.round
            && tc.highest_tc_round < tc.round),
        tc.timeout.hqc_round < tc.timeout.round && tc.hqc_round >= tc.round ==> tc_verify_result(tc) == Err::<(), Error>(
            Error::InvalidTcHqcRound { hqc_round: tc.hqc_round, round: tc.round },
        ),
{
}

impl TwoChainTimeoutCertificate {
    /// Creates a timeout certificate.
    pub fn new(
        epoch: u64,
        round: u64,
        hqc_round: u64,
        highest_tc_round: u64,
        timeout: Arc<TwoChainTimeout>,
        aggregated_signature: MockSignature,
    ) -> (tc: Self)
        ensures
            tc.epoch == epoch,
            tc.round == round,
            tc.hqc_round == hqc_round,
            tc.highest_tc_round == highest_tc_round,
            tc.timeout == timeout,
            tc.aggregated_signature == aggregated_signature,
    {
        TwoChainTimeoutCertificate { epoch, round, hqc_round, highest_tc_round, timeout, aggregated_signature }
    }

    /// The epoch.
    pub fn epoch(&self) -> (e: u64)
        ensures
            e == self.epoch,
    {
        self.epoch
    }

    /// The round that timed out.
    pub fn round(&self) -> (r: u64)
        ensures
            r == self.round,
    {
        self.round
    }

    /// The round of the highest quorum certificate referenced.
    pub fn hqc_round(&self) -> (r: u64)
        ensures
            r == self.hqc_round,
    {
        self.hqc_round
    }

    /// The round of the highest quorum certificate referenced.
    pub fn highest_qc_round(&self) -> (r: u64)
        ensures
            r == self.hqc_round,
    {
        self.hqc_round
    }

    /// The highest timeout certificate round referenced.
    pub fn highest_tc_round(&self) -> (r: u64)
        ensures
            r == self.highest_tc_round,
    {
        self.highest_tc_round
    }

    /// The certified timeout.
    pub fn timeout(&self) -> (t: &TwoChainTimeout)
        ensures
            *t == *self.timeout,
    {
        &self.timeout
    }

    /// Checks internal consistency: the timeout is consistent, and both
    /// referenced rounds are below the certificate's round.
    pub fn verify(&self) -> (r: Result<(), Error>)
        ensures
            r == tc_verify_result(*self),
    {
        self.timeout.verify()?;
        if self.hqc_round >= self.round {
            return Err(Error::InvalidTcHqcRound { hqc_round: self.hqc_round, round: self.round });
        }
        if self.highest_tc_round >= self.round {
            return Err(Error::InvalidTcHighestTcRound { highest_tc_round: self.highest_tc_round, round: self.round });
        }
        Ok(())
    }

    /// Whether the certificate allows advancing: its round directly follows
    /// the highest certified round or the highest timeout-certified round.
    pub fn allows_advance(&self) -> (a: bool)
        requires
            self.hqc_round < u64::MAX,
            self.round != self.hqc_round + 1 ==> self.highest_tc_round < u64::MAX,
        ensures
            a == (self.round == self.hqc_round + 1 || self.round == self.highest_tc_round + 1),
    {
        self.round == self.hqc_round + 1 || self.round == self.highest_tc_round + 1
    }

    /// The larger of the highest certified round and the highest
    /// timeout-certified round.
    pub fn effective_hqc_round(&self) -> (r: u64)
        ensures
            r == (if self.hqc_round >= self.highest_tc_round { self.hqc_round } else { self.highest_tc_round }),
    {
        if self.hqc_round >= self.highest_tc_round {
            self.hqc_round
        } else {
            self.highest_tc_round
        }
    }
}

} // verus!
