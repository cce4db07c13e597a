//! The course of one withdrawal request, from arrival to its terminal
//! outcome.

use crate::error::VaultError;
use crate::transfer::TransferInstruction;
use vstd::prelude::*;

verus! {

/// Where a withdrawal request stands.
#[derive(Clone, Copy, Debug, PartialEq, Eq, Structural)]
pub enum WithdrawalState {
    /// The request has arrived.
    Received,
    /// The request is being held against its vault.
    Validating,
    /// The request was approved; its transfer is pending.
    Authorized,
    /// The request was turned down. Terminal.
    Rejected,
    /// The funds were moved. Terminal.
    Transferred,
    /// The transfer primitive failed. Terminal; nothing is tried again.
    TransferFailed,
}

/// What moves a withdrawal request on.
#[derive(Clone, Copy, Debug, PartialEq, Eq, Structural)]
pub enum WithdrawalEvent {
    /// The request was taken up.
    Dispatched,
    /// Validation and the handler approved the request.
    Approved,
    /// Validation or the handler turned the request down.
    Denied,
    /// The transfer primitive reported success.
    TransferSucceeded,
    /// The transfer primitive reported an error.
    TransferErrored,
}

impl WithdrawalState {
    /// Whether no event leads on from this state.
    pub open spec fn terminal(self) -> bool {
        self == WithdrawalState::Rejected || self == WithdrawalState::Transferred || self
            == WithdrawalState::TransferFailed
    }

    /// The state that `event` leads to, where it applies in this state.
    pub open spec fn next(self, event: WithdrawalEvent) -> Option<WithdrawalState> {
        match (self, event) {
            (WithdrawalState::Received, WithdrawalEvent::Dispatched) => Some(
                WithdrawalState::Validating,
            ),
            (WithdrawalState::Validating, WithdrawalEvent::Approved) => Some(
                WithdrawalState::Authorized,
            ),
            (WithdrawalState::Validating, WithdrawalEvent::Denied) => Some(
                WithdrawalState::Rejected,
            ),
            (WithdrawalState::Authorized, WithdrawalEvent::TransferSucceeded) => Some(
                WithdrawalState::Transferred,
            ),
            (WithdrawalState::Authorized, WithdrawalEvent::TransferErrored) => Some(
                WithdrawalState::TransferFailed,
            ),
            _ => None,
        }
    }

    /// Whether the request has reached its outcome.
    pub fn is_terminal(self) -> (r: bool)
        ensures
            r == self.terminal(),
    {
        match self {
            WithdrawalState::Rejected => true,
            WithdrawalState::Transferred => true,
            WithdrawalState::TransferFailed => true,
            _ => false,
        }
    }

    /// Applies `event`. `None` where the event does not apply in this state.
    pub fn step(self, event: WithdrawalEvent) -> (r: Option<WithdrawalState>)
        ensures
            r == self.next(event),
    {
        match (self, event) {
            (WithdrawalState::Received, WithdrawalEvent::Dispatched) => Some(
                WithdrawalState::Validating,
            ),
            (WithdrawalState::Validating, WithdrawalEvent::Approved) => Some(
                WithdrawalState::Authorized,
            ),
            (WithdrawalState::Validating, WithdrawalEvent::Denied) => Some(
                WithdrawalState::Rejected,
            ),
            (WithdrawalState::Authorized, WithdrawalEvent::TransferSucceeded) => Some(
                WithdrawalState::Transferred,
            ),
            (WithdrawalState::Authorized, WithdrawalEvent::TransferErrored) => Some(
                WithdrawalState::TransferFailed,
            ),
            _ => None,
        }
    }
}

/// The event that the result of validation and handler amounts to.
pub fn verdict(authorization: &Result<TransferInstruction, VaultError>) -> (event: WithdrawalEvent)
    ensures
        event == if authorization is Ok {
            WithdrawalEvent::Approved
        } else {
            WithdrawalEvent::Denied
        },
{
    match authorization {
        Ok(_) => WithdrawalEvent::Approved,
        Err(_) => WithdrawalEvent::Denied,
    }
}

/// The event that the transfer primitive's result amounts to.
pub fn transfer_event(succeeded: bool) -> (event: WithdrawalEvent)
    ensures
        event == if succeeded {
            WithdrawalEvent::TransferSucceeded
        } else {
            WithdrawalEvent::TransferErrored
        },
{
    if succeeded {
        WithdrawalEvent::TransferSucceeded
    } else {
        WithdrawalEvent::TransferErrored
    }
}

/// What the caller is told once the request is over: nothing on success,
/// the reason of the rejection, or `TransferFailed`. `None` while the request
/// is still under way.
pub fn outcome(state: WithdrawalState, authorization: &Result<TransferInstruction, VaultError>)
    -> (r: Option<Result<(), VaultError>>)
    ensures
        r == match state {
            WithdrawalState::Transferred => Some(Ok::<(), VaultError>(())),
            WithdrawalState::TransferFailed => Some(
                Err::<(), VaultError>(VaultError::TransferFailed),
            ),
            WithdrawalState::Rejected => match *authorization {
                Err(e) => Some(Err::<(), VaultError>(e)),
                Ok(_) => None,
            },
            _ => None,
        },
{
    match state {
        WithdrawalState::Transferred => Some(Ok(())),
        WithdrawalState::TransferFailed => Some(Err(VaultError::TransferFailed)),
        WithdrawalState::Rejected => match authorization {
            Err(e) => Some(Err(*e)),
            Ok(_) => None,
        },
        _ => None,
    }
}

/// A terminal state is left by no event, and every other state by some.
pub proof fn lemma_terminal_states_are_final(state: WithdrawalState)
    ensures
        state.terminal() <==> forall|event: WithdrawalEvent| state.next(event) is None,
{
    if !state.terminal() {
        match state {
            WithdrawalState::Received => {
                assert(state.next(WithdrawalEvent::Dispatched) is Some);
            },
            WithdrawalState::Validating => {
                assert(state.next(WithdrawalEvent::Approved) is Some);
            },
            _ => {
                assert(state.next(WithdrawalEvent::TransferSucceeded) is Some);
            },
        }
    }
}

} // verus!
