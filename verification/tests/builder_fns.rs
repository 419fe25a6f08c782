//! Tests of the instruction builders: program-id checking against the real
//! token program id, signer-count validation, and the assembled account
//! lists and data bytes.

use token_codec::builders::{
    amount_to_ui_amount, burn, burn_checked, close_account, freeze_account, get_account_data_size,
    initialize_account, initialize_account2, initialize_account3, initialize_immutable_owner,
    initialize_mint, initialize_mint2, initialize_multisig, initialize_multisig2,
    is_valid_signer_index, mint_to, mint_to_checked, revoke, set_authority, sync_native,
    thaw_account, transfer, transfer_checked, ui_amount_to_amount,
};
use token_codec::error::TokenError;
use token_codec::instruction::{AuthorityType, TokenInstruction};
use token_codec::pubkey::Pubkey;

fn key(b: u8) -> Pubkey {
    Pubkey::new(vec![b; 32])
}

fn program_id() -> Pubkey {
    Pubkey::new(spl_token::id().to_bytes().to_vec())
}

#[allow(deprecated)]
fn rent_id_bytes() -> Vec<u8> {
    solana_program::sysvar::rent::id().to_bytes().to_vec()
}

#[test]
fn wrong_program_id_is_rejected() {
    let bad = key(0);
    assert_eq!(
        transfer(&bad, &key(1), &key(2), &key(3), &Vec::new(), 5),
        Err(TokenError::IncorrectProgramId)
    );
    assert_eq!(
        initialize_mint2(&bad, &key(1), &key(2), None, 0),
        Err(TokenError::IncorrectProgramId)
    );
    assert_eq!(
        sync_native(&bad, &key(1)),
        Err(TokenError::IncorrectProgramId)
    );
}

#[test]
fn transfer_builder_assembles_instruction() {
    let ins = transfer(&program_id(), &key(1), &key(2), &key(3), &Vec::new(), 1_000_000).unwrap();
    assert_eq!(ins.program_id, program_id());
    assert_eq!(ins.data, vec![3u8, 0x40, 0x42, 0x0F, 0x00, 0, 0, 0, 0]);
    assert_eq!(ins.accounts.len(), 3);
    assert_eq!(ins.accounts[0].pubkey, key(1));
    assert!(!ins.accounts[0].is_signer);
    assert!(ins.accounts[0].is_writable);
    assert_eq!(ins.accounts[1].pubkey, key(2));
    assert!(ins.accounts[1].is_writable);
    assert_eq!(ins.accounts[2].pubkey, key(3));
    assert!(ins.accounts[2].is_signer);
    assert!(!ins.accounts[2].is_writable);
}

#[test]
fn transfer_builder_with_multisig_signers() {
    let signers = vec![key(7), key(8)];
    let ins = transfer(&program_id(), &key(1), &key(2), &key(3), &signers, 9).unwrap();
    assert_eq!(ins.accounts.len(), 5);
    assert!(!ins.accounts[2].is_signer);
    assert_eq!(ins.accounts[3].pubkey, key(7));
    assert!(ins.accounts[3].is_signer);
    assert!(!ins.accounts[3].is_writable);
    assert_eq!(ins.accounts[4].pubkey, key(8));
    assert!(ins.accounts[4].is_signer);
}

#[test]
fn initialize_mint_builder_includes_rent() {
    let ins = initialize_mint(&program_id(), &key(1), &key(2), Some(&key(3)), 6).unwrap();
    let expected_data = (TokenInstruction::InitializeMint {
        decimals: 6,
        mint_authority: key(2),
        freeze_authority: Some(key(3)),
    })
    .pack();
    assert_eq!(ins.data, expected_data);
    assert_eq!(ins.accounts.len(), 2);
    assert_eq!(ins.accounts[0].pubkey, key(1));
    assert!(ins.accounts[0].is_writable);
    assert_eq!(ins.accounts[1].pubkey.as_bytes(), &rent_id_bytes());
    assert!(!ins.accounts[1].is_signer);
    assert!(!ins.accounts[1].is_writable);
}

#[test]
fn initialize_mint2_builder_has_no_rent() {
    let ins = initialize_mint2(&program_id(), &key(1), &key(2), None, 0).unwrap();
    assert_eq!(ins.accounts.len(), 1);
    assert_eq!(
        ins.data,
        (TokenInstruction::InitializeMint2 {
            decimals: 0,
            mint_authority: key(2),
            freeze_authority: None,
        })
        .pack()
    );
}

#[test]
fn initialize_account_builders() {
    let ins = initialize_account(&program_id(), &key(1), &key(2), &key(3)).unwrap();
    assert_eq!(ins.accounts.len(), 4);
    assert_eq!(ins.data, vec![1u8]);
    assert_eq!(ins.accounts[3].pubkey.as_bytes(), &rent_id_bytes());

    let ins2 = initialize_account2(&program_id(), &key(1), &key(2), &key(3)).unwrap();
    assert_eq!(ins2.accounts.len(), 2);
    assert_eq!(
        ins2.data,
        (TokenInstruction::InitializeAccount2 { owner: key(3) }).pack()
    );

    let ins3 = initialize_account3(&program_id(), &key(1), &key(2), &key(3)).unwrap();
    assert_eq!(ins3.accounts.len(), 2);
    assert_eq!(
        ins3.data,
        (TokenInstruction::InitializeAccount3 { owner: key(3) }).pack()
    );
}

#[test]
fn multisig_threshold_below_minimum_is_rejected() {
    let signers = vec![key(1)];
    assert_eq!(
        initialize_multisig(&program_id(), &key(9), &signers, 0),
        Err(TokenError::ThresholdViolation)
    );
}

#[test]
fn multisig_threshold_above_maximum_is_rejected() {
    let mut signers = Vec::new();
    for i in 0..12u8 {
        signers.push(key(i));
    }
    assert_eq!(
        initialize_multisig(&program_id(), &key(9), &signers, 12),
        Err(TokenError::ThresholdViolation)
    );
}

#[test]
fn multisig_threshold_above_signer_count_is_rejected() {
    let signers = vec![key(1), key(2)];
    assert_eq!(
        initialize_multisig(&program_id(), &key(9), &signers, 3),
        Err(TokenError::ThresholdViolation)
    );
    assert_eq!(
        initialize_multisig2(&program_id(), &key(9), &signers, 3),
        Err(TokenError::ThresholdViolation)
    );
}

#[test]
fn multisig_builders_assemble_instruction() {
    let signers = vec![key(1), key(2), key(3)];
    let ins = initialize_multisig(&program_id(), &key(9), &signers, 2).unwrap();
    assert_eq!(ins.data, vec![2u8, 2u8]);
    assert_eq!(ins.accounts.len(), 5);
    assert_eq!(ins.accounts[0].pubkey, key(9));
    assert_eq!(ins.accounts[1].pubkey.as_bytes(), &rent_id_bytes());
    assert_eq!(ins.accounts[2].pubkey, key(1));
    assert!(!ins.accounts[2].is_signer);

    let ins2 = initialize_multisig2(&program_id(), &key(9), &signers, 2).unwrap();
    assert_eq!(ins2.data, vec![19u8, 2u8]);
    assert_eq!(ins2.accounts.len(), 4);
    assert_eq!(ins2.accounts[1].pubkey, key(1));
}

#[test]
fn signer_index_bounds() {
    assert!(!is_valid_signer_index(0));
    assert!(is_valid_signer_index(1));
    assert!(is_valid_signer_index(11));
    assert!(!is_valid_signer_index(12));
}

#[test]
fn owner_builders_assemble_instruction() {
    let ins = revoke(&program_id(), &key(1), &key(2), &Vec::new()).unwrap();
    assert_eq!(ins.data, vec![5u8]);
    assert_eq!(ins.accounts.len(), 2);
    assert!(ins.accounts[1].is_signer);

    let ins = set_authority(
        &program_id(),
        &key(1),
        Some(&key(4)),
        AuthorityType::AccountOwner,
        &key(2),
        &Vec::new(),
    )
    .unwrap();
    assert_eq!(
        ins.data,
        (TokenInstruction::SetAuthority {
            authority_type: AuthorityType::AccountOwner,
            new_authority: Some(key(4)),
        })
        .pack()
    );
    assert_eq!(ins.accounts.len(), 2);

    let ins = mint_to(&program_id(), &key(1), &key(2), &key(3), &Vec::new(), 10).unwrap();
    assert_eq!(ins.data, (TokenInstruction::MintTo { amount: 10 }).pack());
    assert_eq!(ins.accounts.len(), 3);

    let ins = burn(&program_id(), &key(1), &key(2), &key(3), &Vec::new(), 10).unwrap();
    assert_eq!(ins.data, (TokenInstruction::Burn { amount: 10 }).pack());

    let ins = close_account(&program_id(), &key(1), &key(2), &key(3), &Vec::new()).unwrap();
    assert_eq!(ins.data, vec![9u8]);

    let ins = freeze_account(&program_id(), &key(1), &key(2), &key(3), &Vec::new()).unwrap();
    assert_eq!(ins.data, vec![10u8]);
    assert!(!ins.accounts[1].is_writable);

    let ins = thaw_account(&program_id(), &key(1), &key(2), &key(3), &Vec::new()).unwrap();
    assert_eq!(ins.data, vec![11u8]);
}

#[test]
fn checked_builders_assemble_instruction() {
    let ins = transfer_checked(
        &program_id(),
        &key(1),
        &key(2),
        &key(3),
        &key(4),
        &Vec::new(),
        500,
        2,
    )
    .unwrap();
    assert_eq!(
        ins.data,
        (TokenInstruction::TransferChecked { amount: 500, decimals: 2 }).pack()
    );
    assert_eq!(ins.accounts.len(), 4);
    assert_eq!(ins.accounts[2].pubkey, key(3));
    assert!(!ins.accounts[2].is_writable);

    let ins = burn_checked(&program_id(), &key(1), &key(2), &key(3), &Vec::new(), 7, 1).unwrap();
    assert_eq!(
        ins.data,
        (TokenInstruction::BurnChecked { amount: 7, decimals: 1 }).pack()
    );

    let ins = mint_to_checked(&program_id(), &key(1), &key(2), &key(3), &Vec::new(), 7, 1).unwrap();
    assert_eq!(
        ins.data,
        (TokenInstruction::MintToChecked { amount: 7, decimals: 1 }).pack()
    );
}

#[test]
fn approve_checked_orders_accounts() {
    let ins = token_codec::builders::approve_checked(
        &program_id(),
        &key(1),
        &key(2),
        &key(3),
        &key(4),
        &Vec::new(),
        9,
        3,
    )
    .unwrap();
    assert_eq!(
        ins.data,
        (TokenInstruction::ApproveChecked { amount: 9, decimals: 3 }).pack()
    );
    assert_eq!(ins.accounts.len(), 4);
    assert_eq!(ins.accounts[1].pubkey, key(2));
    assert!(!ins.accounts[1].is_writable);
    assert_eq!(ins.accounts[2].pubkey, key(3));
    assert!(ins.accounts[2].is_writable);
}

#[test]
fn single_account_builders_assemble_instruction() {
    let ins = sync_native(&program_id(), &key(1)).unwrap();
    assert_eq!(ins.data, vec![17u8]);
    assert_eq!(ins.accounts.len(), 1);
    assert!(ins.accounts[0].is_writable);

    let ins = get_account_data_size(&program_id(), &key(1)).unwrap();
    assert_eq!(ins.data, vec![21u8]);
    assert!(!ins.accounts[0].is_writable);

    let ins = initialize_immutable_owner(&program_id(), &key(1)).unwrap();
    assert_eq!(ins.data, vec![22u8]);

    let ins = amount_to_ui_amount(&program_id(), &key(1), 42).unwrap();
    assert_eq!(
        ins.data,
        (TokenInstruction::AmountToUiAmount { amount: 42 }).pack()
    );

    let ins = ui_amount_to_amount(&program_id(), &key(1), "1.25").unwrap();
    assert_eq!(ins.data, vec![24u8, b'1', b'.', b'2', b'5']);
}
