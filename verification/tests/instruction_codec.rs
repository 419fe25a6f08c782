//! Wire-level tests of the instruction codec: round trips for every
//! variant, the exact bytes of known encodings, and every rejection.

use token_codec::error::TokenError;
use token_codec::instruction::{AuthorityType, TokenInstruction};
use token_codec::pubkey::Pubkey;

fn key(b: u8) -> Pubkey {
    Pubkey::new(vec![b; 32])
}

fn round_trip(ins: TokenInstruction) {
    let packed = ins.pack();
    let unpacked = TokenInstruction::unpack(packed.as_slice()).unwrap();
    assert_eq!(unpacked, ins);
}

#[test]
fn round_trip_initialize_mint() {
    round_trip(TokenInstruction::InitializeMint {
        decimals: 9,
        mint_authority: key(1),
        freeze_authority: Some(key(2)),
    });
    round_trip(TokenInstruction::InitializeMint {
        decimals: 0,
        mint_authority: key(3),
        freeze_authority: None,
    });
}

#[test]
fn round_trip_initialize_account_variants() {
    round_trip(TokenInstruction::InitializeAccount);
    round_trip(TokenInstruction::InitializeAccount2 { owner: key(4) });
    round_trip(TokenInstruction::InitializeAccount3 { owner: key(5) });
}

#[test]
fn round_trip_multisig_variants() {
    round_trip(TokenInstruction::InitializeMultisig { m: 3 });
    round_trip(TokenInstruction::InitializeMultisig2 { m: 11 });
}

#[test]
fn round_trip_amount_variants() {
    round_trip(TokenInstruction::Transfer { amount: 0 });
    round_trip(TokenInstruction::Transfer { amount: u64::MAX });
    round_trip(TokenInstruction::Approve { amount: 77 });
    round_trip(TokenInstruction::MintTo { amount: 1 });
    round_trip(TokenInstruction::Burn { amount: 99999999 });
    round_trip(TokenInstruction::AmountToUiAmount { amount: 42 });
}

#[test]
fn round_trip_no_payload_variants() {
    round_trip(TokenInstruction::Revoke);
    round_trip(TokenInstruction::CloseAccount);
    round_trip(TokenInstruction::FreezeAccount);
    round_trip(TokenInstruction::ThawAccount);
    round_trip(TokenInstruction::SyncNative);
    round_trip(TokenInstruction::GetAccountDataSize);
    round_trip(TokenInstruction::InitializeImmutableOwner);
}

#[test]
fn round_trip_set_authority() {
    round_trip(TokenInstruction::SetAuthority {
        authority_type: AuthorityType::MintTokens,
        new_authority: Some(key(6)),
    });
    round_trip(TokenInstruction::SetAuthority {
        authority_type: AuthorityType::FreezeAccount,
        new_authority: None,
    });
    round_trip(TokenInstruction::SetAuthority {
        authority_type: AuthorityType::AccountOwner,
        new_authority: Some(key(7)),
    });
    round_trip(TokenInstruction::SetAuthority {
        authority_type: AuthorityType::CloseAccount,
        new_authority: None,
    });
}

#[test]
fn round_trip_checked_variants() {
    round_trip(TokenInstruction::TransferChecked { amount: 500, decimals: 2 });
    round_trip(TokenInstruction::ApproveChecked { amount: 1, decimals: 0 });
    round_trip(TokenInstruction::MintToChecked { amount: u64::MAX, decimals: 255 });
    round_trip(TokenInstruction::BurnChecked { amount: 123456789, decimals: 9 });
}

#[test]
fn round_trip_mint2_and_ui_amount() {
    round_trip(TokenInstruction::InitializeMint2 {
        decimals: 5,
        mint_authority: key(8),
        freeze_authority: Some(key(9)),
    });
    round_trip(TokenInstruction::UiAmountToAmount { ui_amount: String::from("1.25") });
    round_trip(TokenInstruction::UiAmountToAmount { ui_amount: String::new() });
    round_trip(TokenInstruction::UiAmountToAmount { ui_amount: String::from("caf\u{e9} \u{1F600}") });
}

#[test]
fn transfer_encoding_is_exact() {
    let packed = (TokenInstruction::Transfer { amount: 1_000_000 }).pack();
    assert_eq!(packed, vec![3u8, 0x40, 0x42, 0x0F, 0x00, 0, 0, 0, 0]);
    let unpacked = TokenInstruction::unpack(packed.as_slice()).unwrap();
    assert_eq!(unpacked, TokenInstruction::Transfer { amount: 1_000_000 });
}

#[test]
fn ui_amount_encoding_is_exact() {
    let packed = (TokenInstruction::UiAmountToAmount { ui_amount: String::from("1.25") }).pack();
    assert_eq!(packed, vec![24u8, b'1', b'.', b'2', b'5']);
}

#[test]
fn initialize_mint_encoding_is_exact() {
    let packed = (TokenInstruction::InitializeMint {
        decimals: 2,
        mint_authority: key(0xAA),
        freeze_authority: None,
    })
    .pack();
    let mut expected = vec![0u8, 2u8];
    expected.extend_from_slice(&[0xAA; 32]);
    expected.extend_from_slice(&[0u8; 36]);
    assert_eq!(packed, expected);
}

#[test]
fn empty_buffer_is_malformed() {
    assert_eq!(TokenInstruction::unpack(&[]), Err(TokenError::MalformedBuffer));
}

#[test]
fn bare_tag_is_malformed_for_payload_variants() {
    for tag in [0u8, 2, 3, 4, 6, 7, 8, 12, 13, 14, 15, 16, 18, 19, 20, 23] {
        assert_eq!(
            TokenInstruction::unpack(&[tag]),
            Err(TokenError::MalformedBuffer),
            "tag {} should demand a payload",
            tag
        );
    }
}

#[test]
fn bare_tag_is_enough_for_empty_payload_variants() {
    for tag in [1u8, 5, 9, 10, 11, 17, 21, 22, 24] {
        assert!(TokenInstruction::unpack(&[tag]).is_ok(), "tag {} needs no payload", tag);
    }
}

#[test]
fn unknown_tags_are_rejected() {
    assert_eq!(TokenInstruction::unpack(&[25u8]), Err(TokenError::UnknownDiscriminant));
    assert_eq!(TokenInstruction::unpack(&[25u8, 1, 2, 3]), Err(TokenError::UnknownDiscriminant));
    assert_eq!(TokenInstruction::unpack(&[100u8]), Err(TokenError::UnknownDiscriminant));
    assert_eq!(TokenInstruction::unpack(&[255u8]), Err(TokenError::UnknownDiscriminant));
}

#[test]
fn authority_byte_out_of_range_is_rejected() {
    let mut buf = vec![6u8, 4u8];
    buf.extend_from_slice(&[0u8; 36]);
    assert_eq!(
        TokenInstruction::unpack(buf.as_slice()),
        Err(TokenError::UnknownDiscriminant)
    );
}

#[test]
fn optional_key_tag_two_is_rejected() {
    let mut buf = vec![6u8, 0u8];
    buf.extend_from_slice(&[2u8, 0, 0, 0]);
    buf.extend_from_slice(&[0u8; 32]);
    assert_eq!(
        TokenInstruction::unpack(buf.as_slice()),
        Err(TokenError::InvalidOptionalTag)
    );
}

#[test]
fn truncated_optional_key_is_malformed() {
    let mut buf = vec![6u8, 0u8];
    buf.extend_from_slice(&[1u8, 0, 0, 0]);
    buf.extend_from_slice(&[7u8; 16]);
    assert_eq!(
        TokenInstruction::unpack(buf.as_slice()),
        Err(TokenError::MalformedBuffer)
    );
}

#[test]
fn invalid_utf8_is_rejected() {
    assert_eq!(
        TokenInstruction::unpack(&[24u8, 0xFF, 0xFE]),
        Err(TokenError::InvalidText)
    );
}

#[test]
fn trailing_bytes_are_ignored() {
    let mut buf = (TokenInstruction::Transfer { amount: 5 }).pack();
    buf.push(0xDE);
    buf.push(0xAD);
    assert_eq!(
        TokenInstruction::unpack(buf.as_slice()).unwrap(),
        TokenInstruction::Transfer { amount: 5 }
    );

    let mut buf2 = (TokenInstruction::InitializeMultisig { m: 2 }).pack();
    buf2.push(9);
    assert_eq!(
        TokenInstruction::unpack(buf2.as_slice()).unwrap(),
        TokenInstruction::InitializeMultisig { m: 2 }
    );
}

#[test]
fn authority_type_bytes_round_trip() {
    let kinds = [
        AuthorityType::MintTokens,
        AuthorityType::FreezeAccount,
        AuthorityType::AccountOwner,
        AuthorityType::CloseAccount,
    ];
    for (i, kind) in kinds.iter().enumerate() {
        assert_eq!(AuthorityType::into(kind), i as u8);
        assert_eq!(AuthorityType::from(i as u8).unwrap(), *kind);
    }
    assert_eq!(AuthorityType::from(4), Err(TokenError::UnknownDiscriminant));
}
