use owner_checks::account::{Account, Context, TokenAccount};
use owner_checks::address::Address;
use owner_checks::clone::{initialize_vault, InitializeVault, Vault};
use owner_checks::error::VaultError;
use owner_checks::store::Store;
use owner_checks::transfer::{SignerSeeds, Transfer, TransferInstruction};
use owner_checks::withdrawal::{outcome, transfer_event, verdict, WithdrawalEvent, WithdrawalState};

fn key(n: u8) -> Address {
    Address::new([n; 32])
}

fn request(
    vault: u8,
    token_account: Option<u8>,
    authority: u8,
) -> Context<InitializeVault, ()> {
    Context {
        program_id: key(201),
        accounts: InitializeVault {
            vault: key(vault),
            token_account: token_account
                .map(|n| Account { key: key(n), data: TokenAccount { amount: 0 } }),
            authority: key(authority),
        },
        bumps: (),
    }
}

const STATES: [WithdrawalState; 6] = [
    WithdrawalState::Received,
    WithdrawalState::Validating,
    WithdrawalState::Authorized,
    WithdrawalState::Rejected,
    WithdrawalState::Transferred,
    WithdrawalState::TransferFailed,
];

const EVENTS: [WithdrawalEvent; 5] = [
    WithdrawalEvent::Dispatched,
    WithdrawalEvent::Approved,
    WithdrawalEvent::Denied,
    WithdrawalEvent::TransferSucceeded,
    WithdrawalEvent::TransferErrored,
];

#[test]
fn clone_vault_takes_any_existing_token_account() {
    let mut registry: Store<Vault> = Store::new();
    assert_eq!(initialize_vault(&mut registry, &request(1, Some(9), 66)), Ok(key(1)));
    let record = registry.get(&key(1)).unwrap();
    assert_eq!(record.token_account, key(9));
    assert_eq!(record.authority, key(66));
}

#[test]
fn clone_vault_needs_a_token_account() {
    let mut registry: Store<Vault> = Store::new();
    assert_eq!(
        initialize_vault(&mut registry, &request(1, None, 66)),
        Err(VaultError::InvalidAccount)
    );
    assert!(!registry.contains(&key(1)));
}

#[test]
fn clone_vault_is_written_once() {
    let mut registry: Store<Vault> = Store::new();
    assert_eq!(initialize_vault(&mut registry, &request(1, Some(9), 66)), Ok(key(1)));
    assert_eq!(
        initialize_vault(&mut registry, &request(1, Some(8), 67)),
        Err(VaultError::AlreadyInitialized)
    );
    assert_eq!(
        initialize_vault(&mut registry, &request(1, None, 67)),
        Err(VaultError::AlreadyInitialized)
    );
    let record = registry.get(&key(1)).unwrap();
    assert_eq!(record.token_account, key(9));
    assert_eq!(record.authority, key(66));
    assert_eq!(initialize_vault(&mut registry, &request(2, Some(9), 67)), Ok(key(2)));
}

#[test]
fn a_request_runs_from_received_to_an_outcome() {
    let s = WithdrawalState::Received;
    assert_eq!(s.step(WithdrawalEvent::Dispatched), Some(WithdrawalState::Validating));
    let s = WithdrawalState::Validating;
    assert_eq!(s.step(WithdrawalEvent::Approved), Some(WithdrawalState::Authorized));
    assert_eq!(s.step(WithdrawalEvent::Denied), Some(WithdrawalState::Rejected));
    let s = WithdrawalState::Authorized;
    assert_eq!(s.step(WithdrawalEvent::TransferSucceeded), Some(WithdrawalState::Transferred));
    assert_eq!(s.step(WithdrawalEvent::TransferErrored), Some(WithdrawalState::TransferFailed));
}

#[test]
fn only_five_transitions_exist() {
    let mut count = 0;
    for state in STATES {
        for event in EVENTS {
            if state.step(event).is_some() {
                count += 1;
            }
        }
    }
    assert_eq!(count, 5);
    assert_eq!(WithdrawalState::Received.step(WithdrawalEvent::Approved), None);
    assert_eq!(WithdrawalState::Validating.step(WithdrawalEvent::TransferSucceeded), None);
    assert_eq!(WithdrawalState::Authorized.step(WithdrawalEvent::Denied), None);
}

#[test]
fn terminal_states_are_left_by_no_event() {
    for state in STATES {
        let stuck = EVENTS.iter().all(|event| state.step(*event).is_none());
        assert_eq!(state.is_terminal(), stuck);
    }
    assert!(WithdrawalState::Rejected.is_terminal());
    assert!(WithdrawalState::Transferred.is_terminal());
    assert!(WithdrawalState::TransferFailed.is_terminal());
    assert!(!WithdrawalState::Received.is_terminal());
    assert!(!WithdrawalState::Validating.is_terminal());
    assert!(!WithdrawalState::Authorized.is_terminal());
}

#[test]
fn events_follow_the_results() {
    let instruction = TransferInstruction {
        accounts: Transfer { from: key(1), authority: key(1), to: key(2) },
        amount: 4,
        signer: SignerSeeds { vault: key(3), bump: 255 },
    };
    assert_eq!(verdict(&Ok(instruction)), WithdrawalEvent::Approved);
    assert_eq!(verdict(&Err(VaultError::IllegalOwner)), WithdrawalEvent::Denied);
    assert_eq!(verdict(&Err(VaultError::ConstraintViolation)), WithdrawalEvent::Denied);
    assert_eq!(transfer_event(true), WithdrawalEvent::TransferSucceeded);
    assert_eq!(transfer_event(false), WithdrawalEvent::TransferErrored);
}

#[test]
fn outcome_reports_each_terminal_state() {
    let instruction = TransferInstruction {
        accounts: Transfer { from: key(1), authority: key(1), to: key(2) },
        amount: 4,
        signer: SignerSeeds { vault: key(3), bump: 255 },
    };
    let approved = Ok(instruction);
    let denied = Err(VaultError::IllegalOwner);
    assert_eq!(outcome(WithdrawalState::Transferred, &approved), Some(Ok(())));
    assert_eq!(
        outcome(WithdrawalState::TransferFailed, &approved),
        Some(Err(VaultError::TransferFailed))
    );
    assert_eq!(outcome(WithdrawalState::Rejected, &denied), Some(Err(VaultError::IllegalOwner)));
    assert_eq!(outcome(WithdrawalState::Rejected, &approved), None);
    assert_eq!(outcome(WithdrawalState::Received, &approved), None);
    assert_eq!(outcome(WithdrawalState::Validating, &denied), None);
    assert_eq!(outcome(WithdrawalState::Authorized, &approved), None);
}
