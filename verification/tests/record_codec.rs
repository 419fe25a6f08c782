//! Tests of the fixed-offset record codecs: round trips for all three
//! record types, layout checks at exact offsets, and every rejection.

use token_codec::error::TokenError;
use token_codec::pubkey::Pubkey;
use token_codec::state::{Account, AccountState, Mint, Multisig};
use token_codec::state::{ACCOUNT_LEN, MINT_LEN, MULTISIG_LEN};

fn key(b: u8) -> Pubkey {
    Pubkey::new(vec![b; 32])
}

fn sample_mint() -> Mint {
    Mint {
        mint_authority: Some(key(1)),
        supply: 1_000_000_000,
        decimals: 9,
        is_initialized: true,
        freeze_authority: Some(key(2)),
    }
}

#[test]
fn mint_round_trip() {
    let mint = sample_mint();
    let packed = mint.pack_to_vec();
    assert_eq!(packed.len(), MINT_LEN);
    let unpacked = Mint::unpack_from_slice(packed.as_slice()).unwrap();
    assert_eq!(unpacked, mint);
}

#[test]
fn mint_round_trip_without_authorities() {
    let mint = Mint {
        mint_authority: None,
        supply: 0,
        decimals: 0,
        is_initialized: false,
        freeze_authority: None,
    };
    let packed = mint.pack_to_vec();
    let unpacked = Mint::unpack_from_slice(packed.as_slice()).unwrap();
    assert_eq!(unpacked, mint);
}

#[test]
fn mint_layout_is_exact() {
    let packed = sample_mint().pack_to_vec();
    assert_eq!(&packed[0..4], &[1, 0, 0, 0]);
    assert_eq!(&packed[4..36], &[1u8; 32][..]);
    assert_eq!(&packed[36..44], &1_000_000_000u64.to_le_bytes()[..]);
    assert_eq!(packed[44], 9);
    assert_eq!(packed[45], 1);
    assert_eq!(&packed[46..50], &[1, 0, 0, 0]);
    assert_eq!(&packed[50..82], &[2u8; 32][..]);
}

#[test]
fn mint_short_buffer_is_malformed() {
    assert_eq!(Mint::unpack_from_slice(&[0u8; 81]), Err(TokenError::MalformedBuffer));
    assert_eq!(Mint::unpack_from_slice(&[]), Err(TokenError::MalformedBuffer));
}

#[test]
fn mint_bad_flag_byte_is_rejected() {
    let mut packed = sample_mint().pack_to_vec();
    packed[45] = 2;
    assert_eq!(Mint::unpack_from_slice(packed.as_slice()), Err(TokenError::InvalidBoolean));
}

#[test]
fn mint_bad_optional_tag_is_rejected() {
    let mut packed = sample_mint().pack_to_vec();
    packed[0] = 3;
    assert_eq!(Mint::unpack_from_slice(packed.as_slice()), Err(TokenError::InvalidOptionalTag));
}

#[test]
fn mint_pack_into_slice_overwrites() {
    let mint = sample_mint();
    let mut dst = vec![0xCCu8; MINT_LEN];
    mint.pack_into_slice(&mut dst);
    assert_eq!(dst, mint.pack_to_vec());
}

#[test]
fn mint_is_initialized_reads_the_flag() {
    assert!(sample_mint().is_initialized());
}

fn sample_account() -> Account {
    Account {
        mint: key(3),
        owner: key(4),
        amount: 123_456,
        delegate: Some(key(5)),
        state: AccountState::Initialized,
        is_native: Some(2_039_280),
        delegated_amount: 42,
        close_authority: None,
    }
}

#[test]
fn account_round_trip() {
    let account = sample_account();
    let packed = account.pack_to_vec();
    assert_eq!(packed.len(), ACCOUNT_LEN);
    let unpacked = Account::unpack_from_slice(packed.as_slice()).unwrap();
    assert_eq!(unpacked, account);
}

#[test]
fn account_round_trip_minimal() {
    let account = Account {
        mint: key(0),
        owner: key(0),
        amount: 0,
        delegate: None,
        state: AccountState::Uninitialized,
        is_native: None,
        delegated_amount: 0,
        close_authority: None,
    };
    let packed = account.pack_to_vec();
    let unpacked = Account::unpack_from_slice(packed.as_slice()).unwrap();
    assert_eq!(unpacked, account);
}

#[test]
fn account_short_buffer_is_malformed() {
    assert_eq!(Account::unpack_from_slice(&[0u8; 164]), Err(TokenError::MalformedBuffer));
}

#[test]
fn account_state_byte_three_is_rejected() {
    let mut packed = sample_account().pack_to_vec();
    packed[108] = 3;
    assert_eq!(
        Account::unpack_from_slice(packed.as_slice()),
        Err(TokenError::UnknownDiscriminant)
    );
}

#[test]
fn account_state_byte_two_is_frozen() {
    let mut packed = sample_account().pack_to_vec();
    packed[108] = 2;
    let unpacked = Account::unpack_from_slice(packed.as_slice()).unwrap();
    assert_eq!(unpacked.state, AccountState::Frozen);
    assert!(unpacked.is_frozen());
}

#[test]
fn account_native_flag_and_initialized() {
    let account = sample_account();
    assert!(account.is_native());
    assert!(account.is_initialized());
    assert!(!account.is_frozen());
}

#[test]
fn account_native_amount_is_little_endian() {
    let packed = sample_account().pack_to_vec();
    assert_eq!(&packed[109..113], &[1, 0, 0, 0]);
    assert_eq!(&packed[113..121], &2_039_280u64.to_le_bytes()[..]);
    let unpacked = Account::unpack_from_slice(packed.as_slice()).unwrap();
    assert_eq!(unpacked.is_native, Some(2_039_280));
}

#[test]
fn account_bad_native_tag_is_rejected() {
    let mut packed = sample_account().pack_to_vec();
    packed[109] = 2;
    assert_eq!(
        Account::unpack_from_slice(packed.as_slice()),
        Err(TokenError::InvalidOptionalTag)
    );
}

#[test]
fn account_pack_into_slice_overwrites() {
    let account = sample_account();
    let mut dst = vec![0x11u8; ACCOUNT_LEN];
    account.pack_into_slice(&mut dst);
    assert_eq!(dst, account.pack_to_vec());
}

fn sample_multisig() -> Multisig {
    let mut signers = Vec::new();
    for i in 0..11u8 {
        signers.push(key(i));
    }
    Multisig { m: 2, n: 3, is_initialized: true, signers }
}

#[test]
fn multisig_round_trip() {
    let multisig = sample_multisig();
    let packed = multisig.pack_to_vec();
    assert_eq!(packed.len(), MULTISIG_LEN);
    let unpacked = Multisig::unpack_from_slice(packed.as_slice()).unwrap();
    assert_eq!(unpacked, multisig);
}

#[test]
fn multisig_layout_is_exact() {
    let packed = sample_multisig().pack_to_vec();
    assert_eq!(packed[0], 2);
    assert_eq!(packed[1], 3);
    assert_eq!(packed[2], 1);
    for i in 0..11usize {
        assert_eq!(&packed[3 + 32 * i..35 + 32 * i], &[i as u8; 32][..]);
    }
}

#[test]
fn multisig_short_buffer_is_malformed() {
    assert_eq!(Multisig::unpack_from_slice(&[0u8; 354]), Err(TokenError::MalformedBuffer));
}

#[test]
fn multisig_bad_counts_are_rejected() {
    let mut packed = sample_multisig().pack_to_vec();
    packed[0] = 0;
    assert_eq!(
        Multisig::unpack_from_slice(packed.as_slice()),
        Err(TokenError::ThresholdViolation)
    );
    packed[0] = 4;
    packed[1] = 3;
    assert_eq!(
        Multisig::unpack_from_slice(packed.as_slice()),
        Err(TokenError::ThresholdViolation)
    );
    packed[0] = 2;
    packed[1] = 12;
    assert_eq!(
        Multisig::unpack_from_slice(packed.as_slice()),
        Err(TokenError::ThresholdViolation)
    );
}

#[test]
fn multisig_bad_flag_byte_is_rejected() {
    let mut packed = sample_multisig().pack_to_vec();
    packed[2] = 7;
    assert_eq!(
        Multisig::unpack_from_slice(packed.as_slice()),
        Err(TokenError::InvalidBoolean)
    );
}

#[test]
fn multisig_pack_into_slice_overwrites() {
    let multisig = sample_multisig();
    let mut dst = vec![0xEEu8; MULTISIG_LEN];
    multisig.pack_into_slice(&mut dst);
    assert_eq!(dst, multisig.pack_to_vec());
}

#[test]
fn record_reencode_reproduces_buffer() {
    let packed = sample_mint().pack_to_vec();
    let mint = Mint::unpack_from_slice(packed.as_slice()).unwrap();
    assert_eq!(mint.pack_to_vec(), packed);

    let packed = sample_account().pack_to_vec();
    let account = Account::unpack_from_slice(packed.as_slice()).unwrap();
    assert_eq!(account.pack_to_vec(), packed);

    let packed = sample_multisig().pack_to_vec();
    let multisig = Multisig::unpack_from_slice(packed.as_slice()).unwrap();
    assert_eq!(multisig.pack_to_vec(), packed);
}

#[test]
fn record_decode_ignores_absent_payload_garbage() {
    let mut packed = sample_mint().pack_to_vec();
    packed[0] = 0;
    for i in 4..36 {
        packed[i] = 0xAB;
    }
    let unpacked = Mint::unpack_from_slice(packed.as_slice()).unwrap();
    assert_eq!(unpacked.mint_authority, None);
}
