//! Errors reported by the consensus components.
use vstd::prelude::*;

use crate::consensus::{consensus_state_text, ConsensusState};
use crate::epoch_manager::{epoch_transition_error_text, EpochTransitionError};
use crate::text::{decimal, option_text, push_decimal, push_decimal_u128, push_option};

verus! {

/// Errors from checking a vote or a set of signers against a validator set.
#[derive(Clone, Debug, PartialEq, Eq, Structural)]
pub enum VerifyError {
    /// The author of a vote is not a member of the validator set
    UnknownAuthor,
    /// The signers do not hold enough voting power for a quorum
    TooLittleVotingPower {
        /// The voting power that was found
        voting_power: u128,
        /// The voting power that a quorum needs
        expected_voting_power: u128,
    },
}

/// The text of a verification error.
pub open spec fn verify_error_text(e: VerifyError) -> Seq<char> {
    match e {
        VerifyError::UnknownAuthor => "Author is unknown"@,
        VerifyError::TooLittleVotingPower { voting_power, expected_voting_power } =>
            "Too little voting power: "@ + decimal(voting_power as nat) + ", expected "@
                + decimal(expected_voting_power as nat),
    }
}

impl VerifyError {
    /// A human-readable description of the error.
    pub fn to_string(&self) -> (s: String)
        ensures
            s@ == verify_error_text(*self),
    {
        match self {
            VerifyError::UnknownAuthor => String::from_str("Author is unknown"),
            VerifyError::TooLittleVotingPower { voting_power, expected_voting_power } => {
                let mut s = String::from_str("Too little voting power: ");
                push_decimal_u128(&mut s, *voting_power);
                s.append(", expected ");
                push_decimal_u128(&mut s, *expected_voting_power);
                s
            },
        }
    }
}

/// Errors of the consensus operations.
#[derive(Clone, Debug, PartialEq, Eq)]
pub enum Error {
    /// A byte string that should hold a value was empty
    EmptyBytes,
    /// The successor of a round does not fit in a round number
    RoundOverflow { round: u64 },
    /// A proposal violates the 2-chain voting rule
    NotSafeToVote { block_round: u64, qc_round: u64, tc_round: Option<u64>, tc_hqc_round: Option<u64> },
    /// A timeout violates the 2-chain timeout rule
    NotSafeToTimeout { round: u64, qc_round: u64, tc_round: Option<u64>, one_chain_round: u64 },
    /// A vote for a round older than the last voted round
    CannotRecordVote { round: u64, last_voted_round: u64 },
    /// A vote attempt for a round older than the last voted round
    CannotVoteForRound { round: u64, last_voted_round: u64 },
    /// The safety rules refused to time out the current round
    TimeoutRejected { round: u64, qc_round: u64, tc_round: Option<u64>, one_chain_round: u64 },
    /// The round after the current round does not fit in a round number
    TimeoutRoundOverflow { round: u64 },
    /// A timeout whose highest certified round is not below its round
    InvalidTimeout { hqc_round: u64, round: u64 },
    /// A timeout certificate whose highest certified round is not below its round
    InvalidTcHqcRound { hqc_round: u64, round: u64 },
    /// A timeout certificate whose highest timeout round is not below its round
    InvalidTcHighestTcRound { highest_tc_round: u64, round: u64 },
    /// A round at or before the current round cannot be entered
    CannotEnterRound { round: u64, current_round: u64 },
    /// A round at or before the highest ordered round cannot be recorded as ordered
    RoundNotAboveOrdered { round: u64, highest_ordered_round: u64 },
    /// Consensus can only start when bootstrapping or stopped
    CannotStart { state: ConsensusState },
    /// Consensus can only stop when running or catching up
    CannotStop { state: ConsensusState },
    /// The operation needs consensus to be running
    NotRunning { state: ConsensusState },
    /// A consensus instance needs a proposer election strategy
    ProposerElectionRequired,
    /// The runtime was started twice
    RuntimeAlreadyRunning,
    /// The runtime was shut down while not running
    RuntimeNotRunning,
    /// A reconfiguration is already under way
    ReconfigInProgress,
    /// A reconfiguration may only move to the next epoch
    NotNextEpoch,
    /// The reconfiguration is not being prepared
    NotPreparing,
    /// A new validator set must not be empty
    EmptyValidatorSet,
    /// Not every validator of the new set was processed
    ValidatorsNotProcessed { processed: usize, total: usize },
    /// No reconfiguration is in progress
    NotInProgress,
    /// An epoch transition was refused
    EpochTransition { error: EpochTransitionError },
    /// A synchronization is already under way
    SyncInProgress,
    /// No synchronization is under way
    NoSyncInProgress,
    /// Synchronized blocks must have consecutive rounds
    BlocksNotSequential { current_round: u64, next_round: u64 },
    /// Synchronized blocks must belong to the epoch of the sync
    WrongSyncEpoch { expected: u64, actual: u64 },
    /// A statistics counter cannot count another message
    StatsOverflow,
    /// A DAG node's author is not in the author set
    UnknownDagAuthor { author: u64 },
    /// The DAG already holds a node of this author in this round
    NodeExists { round: u64, author: u64 },
    /// The DAG holds no node of this round
    RoundNotFound { round: u64 },
    /// The round is below the lowest round the DAG keeps (it was pruned)
    RoundPruned { round: u64, lowest_round: u64 },
    /// The round holds no slot for this author
    AuthorIndexOutOfBounds,
    /// The DAG holds no such node
    NodeNotFound,
    /// The node was ordered already
    NodeAlreadyOrdered,
    /// A DAG driver cannot move back to an earlier round
    CannotMoveToRound { new_round: u64, current_round: u64 },
    /// A vote or a signer set failed verification
    Verify(VerifyError),
}

/// The text of an error.
/// The text of a refused timeout.
pub open spec fn timeout_refusal_text(round: u64, qc_round: u64, tc_round: Option<u64>, one_chain_round: u64) -> Seq<char> {
    "Not safe to timeout: round="@ + decimal(round as nat) + ", qc_round="@
        + decimal(qc_round as nat) + ", tc_round="@ + option_text(tc_round)
        + ", one_chain_round="@ + decimal(one_chain_round as nat)
        + " - must satisfy: (round == qc.round + 1 OR round == tc.round + 1) AND qc.round >= one_chain_round"@
}

fn push_timeout_refusal(s: &mut String, round: u64, qc_round: u64, tc_round: Option<u64>, one_chain_round: u64)
    ensures
        final(s)@ == old(s)@ + timeout_refusal_text(round, qc_round, tc_round, one_chain_round),
{
    s.append("Not safe to timeout: round=");
    push_decimal(s, round);
    s.append(", qc_round=");
    push_decimal(s, qc_round);
    s.append(", tc_round=");
    push_option(s, tc_round);
    s.append(", one_chain_round=");
    push_decimal(s, one_chain_round);
    s.append(
        " - must satisfy: (round == qc.round + 1 OR round == tc.round + 1) AND qc.round >= one_chain_round",
    );
}

pub open spec fn error_text(e: Error) -> Seq<char> {
    match e {
        Error::EmptyBytes => "Empty bytes"@,
        Error::RoundOverflow { round } => "Round overflow at "@ + decimal(round as nat),
        Error::NotSafeToVote { block_round, qc_round, tc_round, tc_hqc_round } =>
            "Not safe to vote: block_round="@ + decimal(block_round as nat) + ", qc_round="@
                + decimal(qc_round as nat) + ", tc_round="@ + option_text(tc_round)
                + ", tc_hqc_round="@ + option_text(tc_hqc_round)
                + " - must satisfy: block.round == qc.round + 1 OR (block.round == tc.round + 1 && qc.round >= tc.hqc_round)"@,
        Error::NotSafeToTimeout { round, qc_round, tc_round, one_chain_round } =>
            timeout_refusal_text(round, qc_round, tc_round, one_chain_round),
        Error::CannotRecordVote { round, last_voted_round } =>
            "Cannot record vote for round "@ + decimal(round as nat) + ": already voted in round "@
                + decimal(last_voted_round as nat),
        Error::CannotVoteForRound { round, last_voted_round } =>
            "Cannot vote for round "@ + decimal(round as nat) + ": already voted in round "@
                + decimal(last_voted_round as nat),
        Error::TimeoutRejected { round, qc_round, tc_round, one_chain_round } =>
            "Not safe to timeout: "@ + timeout_refusal_text(round, qc_round, tc_round, one_chain_round),
        Error::TimeoutRoundOverflow { round } => "Not safe to timeout: Round overflow at "@ + decimal(round as nat),
        Error::InvalidTimeout { hqc_round, round } =>
            "Invalid timeout: hqc_round ("@ + decimal(hqc_round as nat) + ") >= round ("@
                + decimal(round as nat) + ")"@,
        Error::InvalidTcHqcRound { hqc_round, round } =>
            "Invalid TC: hqc_round ("@ + decimal(hqc_round as nat) + ") >= round ("@
                + decimal(round as nat) + ")"@,
        Error::InvalidTcHighestTcRound { highest_tc_round, round } =>
            "Invalid TC: highest_tc_round ("@ + decimal(highest_tc_round as nat) + ") >= round ("@
                + decimal(round as nat) + ")"@,
        Error::CannotEnterRound { round, current_round } =>
            "Cannot enter round "@ + decimal(round as nat) + ": current round is "@ + decimal(current_round as nat),
        Error::RoundNotAboveOrdered { round, highest_ordered_round } =>
            "Round "@ + decimal(round as nat) + " is not greater than highest ordered round "@ + decimal(highest_ordered_round as nat),
        Error::CannotStart { state } =>
            "Cannot start consensus from state: "@ + consensus_state_text(state),
        Error::CannotStop { state } =>
            "Cannot stop consensus from state: "@ + consensus_state_text(state),
        Error::NotRunning { state } =>
            "Not in running state: "@ + consensus_state_text(state),
        Error::ProposerElectionRequired =>
            "Proposer election strategy required"@,
        Error::RuntimeAlreadyRunning =>
            "Runtime is already running"@,
        Error::RuntimeNotRunning =>
            "Runtime is not running"@,
        Error::ReconfigInProgress =>
            "Reconfiguration already in progress"@,
        Error::NotNextEpoch =>
            "Can only transition to the next epoch"@,
        Error::NotPreparing =>
            "Not in preparing state"@,
        Error::EmptyValidatorSet =>
            "Validator set cannot be empty"@,
        Error::ValidatorsNotProcessed { processed, total } =>
            "Not all validators processed: "@ + decimal(processed as nat) + "/"@ + decimal(total as nat),
        Error::NotInProgress =>
            "Not in progress state"@,
        Error::EpochTransition { error } =>
            epoch_transition_error_text(error),
        Error::SyncInProgress =>
            "Sync already in progress"@,
        Error::NoSyncInProgress =>
            "No sync in progress"@,
        Error::BlocksNotSequential { current_round, next_round } =>
            "Blocks not sequential: round "@ + decimal(current_round as nat) + " followed by round "@ + decimal(next_round as nat),
        Error::WrongSyncEpoch { expected, actual } =>
            "Blocks from wrong epoch: expected "@ + decimal(expected as nat) + ", got "@ + decimal(actual as nat),
        Error::StatsOverflow =>
            "Message statistics overflow"@,
        Error::UnknownDagAuthor { author } =>
            "Unknown author: TestAuthor("@ + decimal(author as nat) + ")"@,
        Error::NodeExists { round, author } =>
            "Node already exists for round TestRound("@ + decimal(round as nat) + "), author TestAuthor("@ + decimal(author as nat) + ")"@,
        Error::RoundNotFound { round } =>
            "Round TestRound("@ + decimal(round as nat) + ") not found"@,
        Error::RoundPruned { round, lowest_round } =>
            "Round TestRound("@ + decimal(round as nat) + ") is below the lowest round TestRound("@ + decimal(
                lowest_round as nat,
            ) + ")"@,
        Error::AuthorIndexOutOfBounds =>
            "Author index out of bounds"@,
        Error::NodeNotFound =>
            "Node not found"@,
        Error::NodeAlreadyOrdered =>
            "Node is already ordered"@,
        Error::CannotMoveToRound { new_round, current_round } =>
            "Cannot move to round TestRound("@ + decimal(new_round as nat) + ") from TestRound("@ + decimal(current_round as nat) + ")"@,
        Error::Verify(v) => verify_error_text(v),
    }
}

impl Error {
    /// A human-readable description of the error.
    pub fn to_string(&self) -> (s: String)
        ensures
            s@ == error_text(*self),
    {
        match self {
            Error::EmptyBytes => String::from_str("Empty bytes"),
            Error::RoundOverflow { round } => {
                let mut s = String::from_str("Round overflow at ");
                push_decimal(&mut s, *round);
                s
            },
            Error::NotSafeToVote { block_round, qc_round, tc_round, tc_hqc_round } => {
                let mut s = String::from_str("Not safe to vote: block_round=");
                push_decimal(&mut s, *block_round);
                s.append(", qc_round=");
                push_decimal(&mut s, *qc_round);
                s.append(", tc_round=");
                push_option(&mut s, *tc_round);
                s.append(", tc_hqc_round=");
                push_option(&mut s, *tc_hqc_round);
                s.append(
                    " - must satisfy: block.round == qc.round + 1 OR (block.round == tc.round + 1 && qc.round >= tc.hqc_round)",
                );
                s
            },
            Error::NotSafeToTimeout { round, qc_round, tc_round, one_chain_round } => {
                let mut s = String::new();
                push_timeout_refusal(&mut s, *round, *qc_round, *tc_round, *one_chain_round);
                s
            },
            Error::CannotRecordVote { round, last_voted_round } => {
                let mut s = String::from_str("Cannot record vote for round ");
                push_decimal(&mut s, *round);
                s.append(": already voted in round ");
                push_decimal(&mut s, *last_voted_round);
                s
            },
            Error::CannotVoteForRound { round, last_voted_round } => {
                let mut s = String::from_str("Cannot vote for round ");
                push_decimal(&mut s, *round);
                s.append(": already voted in round ");
                push_decimal(&mut s, *last_voted_round);
                s
            },
            Error::TimeoutRejected { round, qc_round, tc_round, one_chain_round } => {
                let mut s = String::from_str("Not safe to timeout: ");
                push_timeout_refusal(&mut s, *round, *qc_round, *tc_round, *one_chain_round);
                s
            },
            Error::TimeoutRoundOverflow { round } => {
                let mut s = String::from_str("Not safe to timeout: Round overflow at ");
                push_decimal(&mut s, *round);
                s
            },
            Error::InvalidTimeout { hqc_round, round } => {
                let mut s = String::from_str("Invalid timeout: hqc_round (");
                push_decimal(&mut s, *hqc_round);
                s.append(") >= round (");
                push_decimal(&mut s, *round);
                s.append(")");
                s
            },
            Error::InvalidTcHqcRound { hqc_round, round } => {
                let mut s = String::from_str("Invalid TC: hqc_round (");
                push_decimal(&mut s, *hqc_round);
                s.append(") >= round (");
                push_decimal(&mut s, *round);
                s.append(")");
                s
            },
            Error::InvalidTcHighestTcRound { highest_tc_round, round } => {
                let mut s = String::from_str("Invalid TC: highest_tc_round (");
                push_decimal(&mut s, *highest_tc_round);
                s.append(") >= round (");
                push_decimal(&mut s, *round);
                s.append(")");
                s
            },
            Error::CannotEnterRound { round, current_round } => {
                let mut s = String::from_str("Cannot enter round ");
                push_decimal(&mut s, *round);
                s.append(": current round is ");
                push_decimal(&mut s, *current_round);
                s
            },
            Error::RoundNotAboveOrdered { round, highest_ordered_round } => {
                let mut s = String::from_str("Round ");
                push_decimal(&mut s, *round);
                s.append(" is not greater than highest ordered round ");
                push_decimal(&mut s, *highest_ordered_round);
                s
            },
            Error::CannotStart { state } => {
                let mut s = String::from_str("Cannot start consensus from state: ");
                let t = state.to_string();
                s.append(t.as_str());
                s
            },
            Error::CannotStop { state } => {
                let mut s = String::from_str("Cannot stop consensus from state: ");
                let t = state.to_string();
                s.append(t.as_str());
                s
            },
            Error::NotRunning { state } => {
                let mut s = String::from_str("Not in running state: ");
                let t = state.to_string();
                s.append(t.as_str());
                s
            },
            Error::ProposerElectionRequired => {
                String::from_str("Proposer election strategy required")
            },
            Error::RuntimeAlreadyRunning => {
                String::from_str("Runtime is already running")
            },
            Error::RuntimeNotRunning => {
                String::from_str("Runtime is not running")
            },
            Error::ReconfigInProgress => {
                String::from_str("Reconfiguration already in progress")
            },
            Error::NotNextEpoch => {
                String::from_str("Can only transition to the next epoch")
            },
            Error::NotPreparing => {
                String::from_str("Not in preparing state")
            },
            Error::EmptyValidatorSet => {
                String::from_str("Validator set cannot be empty")
            },
            Error::ValidatorsNotProcessed { processed, total } => {
                let mut s = String::from_str("Not all validators processed: ");
                push_decimal(&mut s, *processed as u64);
                s.append("/");
                push_decimal(&mut s, *total as u64);
                s
            },
            Error::NotInProgress => {
                String::from_str("Not in progress state")
            },
            Error::EpochTransition { error } => {
                error.to_string()
            },
            Error::SyncInProgress => {
                String::from_str("Sync already in progress")
            },
            Error::NoSyncInProgress => {
                String::from_str("No sync in progress")
            },
            Error::WrongSyncEpoch { expected, actual } => {
                let mut s = String::from_str("Blocks from wrong epoch: expected ");
                push_decimal(&mut s, *expected);
                s.append(", got ");
                push_decimal(&mut s, *actual);
                s
            },
            Error::BlocksNotSequential { current_round, next_round } => {
                let mut s = String::from_str("Blocks not sequential: round ");
                push_decimal(&mut s, *current_round);
                s.append(" followed by round ");
                push_decimal(&mut s, *next_round);
                s
            },
            Error::StatsOverflow => {
                String::from_str("Message statistics overflow")
            },
            Error::UnknownDagAuthor { author } => {
                let mut s = String::from_str("Unknown author: TestAuthor(");
                push_decimal(&mut s, *author);
                s.append(")");
                s
            },
            Error::NodeExists { round, author } => {
                let mut s = String::from_str("Node already exists for round TestRound(");
                push_decimal(&mut s, *round);
                s.append("), author TestAuthor(");
                push_decimal(&mut s, *author);
                s.append(")");
                s
            },
            Error::RoundNotFound { round } => {
                let mut s = String::from_str("Round TestRound(");
                push_decimal(&mut s, *round);
                s.append(") not found");
                s
            },
            Error::RoundPruned { round, lowest_round } => {
                let mut s = String::from_str("Round TestRound(");
                push_decimal(&mut s, *round);
                s.append(") is below the lowest round TestRound(");
                push_decimal(&mut s, *lowest_round);
                s.append(")");
                s
            },
            Error::AuthorIndexOutOfBounds => {
                String::from_str("Author index out of bounds")
            },
            Error::NodeNotFound => {
                String::from_str("Node not found")
            },
            Error::NodeAlreadyOrdered => {
                String::from_str("Node is already ordered")
            },
            Error::CannotMoveToRound { new_round, current_round } => {
                let mut s = String::from_str("Cannot move to round TestRound(");
                push_decimal(&mut s, *new_round);
                s.append(") from TestRound(");
                push_decimal(&mut s, *current_round);
                s.append(")");
                s
            },
            Error::Verify(v) => v.to_string(),
        }
    }
}

} // verus!
