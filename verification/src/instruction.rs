//! The instruction codec: a leading tag byte selects one of 25 operations,
//! and the bytes after it carry that operation's payload. Decoding is
//! strict on the minimum length of every field but ignores trailing bytes
//! a variant does not consume; encoding always writes the full fixed-size
//! form of every field.

use vstd::prelude::*;
use vstd::bytes::{spec_u64_from_le_bytes, spec_u64_to_le_bytes, u64_to_le_bytes};
use vstd::utf8::{decode_utf8, encode_utf8, valid_utf8};
use vstd::string::StringSliceAdditionalSpecFns;

use crate::error::TokenError;
use crate::option_codec::{
    lemma_opt_key_round_trip, opt_key_view, opt_key_wf, pack_opt_key_into, spec_pack_opt_key,
    spec_unpack_opt_key, unpack_opt_key_at,
};
use crate::pubkey::Pubkey;
use crate::wire::{push_bytes, read_byte_at, read_key_at, read_u64_at};

verus! {

/// Which privileged role a `SetAuthority` instruction replaces.
#[derive(Clone, Copy, Debug, PartialEq, Eq, Structural)]
pub enum AuthorityType {
    /// Authority to mint new tokens.
    MintTokens,
    /// Authority to freeze accounts associated with the mint.
    FreezeAccount,
    /// Owner of a given token account.
    AccountOwner,
    /// Authority to close a token account.
    CloseAccount,
}

/// The byte that stands for each authority kind on the wire.
pub open spec fn authority_type_byte(a: AuthorityType) -> u8 {
    match a {
        AuthorityType::MintTokens => 0,
        AuthorityType::FreezeAccount => 1,
        AuthorityType::AccountOwner => 2,
        AuthorityType::CloseAccount => 3,
    }
}

/// The authority kind a byte stands for; bytes outside the closed set are
/// rejected.
pub open spec fn spec_authority_type_from(index: u8) -> Result<AuthorityType, TokenError> {
    if index == 0 {
        Ok(AuthorityType::MintTokens)
    } else if index == 1 {
        Ok(AuthorityType::FreezeAccount)
    } else if index == 2 {
        Ok(AuthorityType::AccountOwner)
    } else if index == 3 {
        Ok(AuthorityType::CloseAccount)
    } else {
        Err(TokenError::UnknownDiscriminant)
    }
}

impl AuthorityType {
    /// The wire byte for this authority kind.
    pub fn into(&self) -> (r: u8)
        ensures
            r == authority_type_byte(*self),
    {
        match self {
            AuthorityType::MintTokens => 0,
            AuthorityType::FreezeAccount => 1,
            AuthorityType::AccountOwner => 2,
            AuthorityType::CloseAccount => 3,
        }
    }

    /// The authority kind encoded by `index`.
    pub fn from(index: u8) -> (r: Result<AuthorityType, TokenError>)
        ensures
            r == spec_authority_type_from(index),
    {
        match index {
            0 => Ok(AuthorityType::MintTokens),
            1 => Ok(AuthorityType::FreezeAccount),
            2 => Ok(AuthorityType::AccountOwner),
            3 => Ok(AuthorityType::CloseAccount),
            _ => Err(TokenError::UnknownDiscriminant),
        }
    }
}

/// A command for the token program.
#[derive(Debug, PartialEq, Eq)]
pub enum TokenInstruction {
    /// Initializes a new mint.
    InitializeMint {
        /// Number of base-10 digits to the right of the decimal place.
        decimals: u8,
        /// The authority allowed to mint tokens.
        mint_authority: Pubkey,
        /// The optional authority allowed to freeze token accounts.
        freeze_authority: Option<Pubkey>,
    },
    /// Initializes a new token account.
    InitializeAccount,
    /// Initializes a multisignature account.
    InitializeMultisig {
        /// The number of signers required to validate the account.
        m: u8,
    },
    /// Transfers tokens.
    Transfer {
        /// The amount of tokens to transfer.
        amount: u64,
    },
    /// Approves a delegate.
    Approve {
        /// The amount of tokens the delegate may transfer.
        amount: u64,
    },
    /// Revokes the delegate's authority.
    Revoke,
    /// Sets a new authority on a mint or account.
    SetAuthority {
        /// Which authority to update.
        authority_type: AuthorityType,
        /// The new authority, or none to clear it.
        new_authority: Option<Pubkey>,
    },
    /// Mints new tokens to an account.
    MintTo {
        /// The amount of new tokens to mint.
        amount: u64,
    },
    /// Burns tokens from an account.
    Burn {
        /// The amount of tokens to burn.
        amount: u64,
    },
    /// Closes an account.
    CloseAccount,
    /// Freezes an account.
    FreezeAccount,
    /// Thaws a frozen account.
    ThawAccount,
    /// Transfers tokens, checking the mint's decimals.
    TransferChecked {
        /// The amount of tokens to transfer.
        amount: u64,
        /// Expected number of base-10 digits of the mint.
        decimals: u8,
    },
    /// Approves a delegate, checking the mint's decimals.
    ApproveChecked {
        /// The amount of tokens the delegate may transfer.
        amount: u64,
        /// Expected number of base-10 digits of the mint.
        decimals: u8,
    },
    /// Mints new tokens, checking the mint's decimals.
    MintToChecked {
        /// The amount of new tokens to mint.
        amount: u64,
        /// Expected number of base-10 digits of the mint.
        decimals: u8,
    },
    /// Burns tokens, checking the mint's decimals.
    BurnChecked {
        /// The amount of tokens to burn.
        amount: u64,
        /// Expected number of base-10 digits of the mint.
        decimals: u8,
    },
    /// Initializes a token account whose owner is given in the payload.
    InitializeAccount2 {
        /// The new account's owner.
        owner: Pubkey,
    },
    /// Synchronizes a native token account with its lamport balance.
    SyncNative,
    /// Like `InitializeAccount2`, without the rent sysvar account.
    InitializeAccount3 {
        /// The new account's owner.
        owner: Pubkey,
    },
    /// Like `InitializeMultisig`, without the rent sysvar account.
    InitializeMultisig2 {
        /// The number of signers required to validate the account.
        m: u8,
    },
    /// Like `InitializeMint`, without the rent sysvar account.
    InitializeMint2 {
        /// Number of base-10 digits to the right of the decimal place.
        decimals: u8,
        /// The authority allowed to mint tokens.
        mint_authority: Pubkey,
        /// The optional authority allowed to freeze token accounts.
        freeze_authority: Option<Pubkey>,
    },
    /// Asks for the byte size a token account needs.
    GetAccountDataSize,
    /// Marks an account's owner as immutable.
    InitializeImmutableOwner,
    /// Converts a raw amount to its display form.
    AmountToUiAmount {
        /// The amount of tokens to reformat.
        amount: u64,
    },
    /// Converts a display-form amount back to a raw amount.
    UiAmountToAmount {
        /// The display-form amount to reformat.
        ui_amount: String,
    },
}

/// The mathematical shape of an instruction: keys as byte sequences and
/// text as a character sequence. Contracts and the round-trip laws are
/// stated over this type.
pub enum InstructionModel {
    /// Initializes a new mint.
    InitializeMint {
        /// Number of base-10 digits to the right of the decimal place.
        decimals: u8,
        /// The authority allowed to mint tokens.
        mint_authority: Seq<u8>,
        /// The optional authority allowed to freeze token accounts.
        freeze_authority: Option<Seq<u8>>,
    },
    /// Initializes a new token account.
    InitializeAccount,
    /// Initializes a multisignature account.
    InitializeMultisig {
        /// The number of signers required to validate the account.
        m: u8,
    },
    /// Transfers tokens.
    Transfer {
        /// The amount of tokens to transfer.
        amount: u64,
    },
    /// Approves a delegate.
    Approve {
        /// The amount of tokens the delegate may transfer.
        amount: u64,
    },
    /// Revokes the delegate's authority.
    Revoke,
    /// Sets a new authority on a mint or account.
    SetAuthority {
        /// Which authority to update.
        authority_type: AuthorityType,
        /// The new authority, or none to clear it.
        new_authority: Option<Seq<u8>>,
    },
    /// Mints new tokens to an account.
    MintTo {
        /// The amount of new tokens to mint.
        amount: u64,
    },
    /// Burns tokens from an account.
    Burn {
        /// The amount of tokens to burn.
        amount: u64,
    },
    /// Closes an account.
    CloseAccount,
    /// Freezes an account.
    FreezeAccount,
    /// Thaws a frozen account.
    ThawAccount,
    /// Transfers tokens, checking the mint's decimals.
    TransferChecked {
        /// The amount of tokens to transfer.
        amount: u64,
        /// Expected number of base-10 digits of the mint.
        decimals: u8,
    },
    /// Approves a delegate, checking the mint's decimals.
    ApproveChecked {
        /// The amount of tokens the delegate may transfer.
        amount: u64,
        /// Expected number of base-10 digits of the mint.
        decimals: u8,
    },
    /// Mints new tokens, checking the mint's decimals.
    MintToChecked {
        /// The amount of new tokens to mint.
        amount: u64,
        /// Expected number of base-10 digits of the mint.
        decimals: u8,
    },
    /// Burns tokens, checking the mint's decimals.
    BurnChecked {
        /// The amount of tokens to burn.
        amount: u64,
        /// Expected number of base-10 digits of the mint.
        decimals: u8,
    },
    /// Initializes a token account whose owner is given in the payload.
    InitializeAccount2 {
        /// The new account's owner.
        owner: Seq<u8>,
    },
    /// Synchronizes a native token account with its lamport balance.
    SyncNative,
    /// Like `InitializeAccount2`, without the rent sysvar account.
    InitializeAccount3 {
        /// The new account's owner.
        owner: Seq<u8>,
    },
    /// Like `InitializeMultisig`, without the rent sysvar account.
    InitializeMultisig2 {
        /// The number of signers required to validate the account.
        m: u8,
    },
    /// Like `InitializeMint`, without the rent sysvar account.
    InitializeMint2 {
        /// Number of base-10 digits to the right of the decimal place.
        decimals: u8,
        /// The authority allowed to mint tokens.
        mint_authority: Seq<u8>,
        /// The optional authority allowed to freeze token accounts.
        freeze_authority: Option<Seq<u8>>,
    },
    /// Asks for the byte size a token account needs.
    GetAccountDataSize,
    /// Marks an account's owner as immutable.
    InitializeImmutableOwner,
    /// Converts a raw amount to its display form.
    AmountToUiAmount {
        /// The amount of tokens to reformat.
        amount: u64,
    },
    /// Converts a display-form amount back to a raw amount.
    UiAmountToAmount {
        /// The display-form amount to reformat.
        ui_amount: Seq<char>,
    },
}

impl View for TokenInstruction {
    type V = InstructionModel;

    open spec fn view(&self) -> InstructionModel {
        match self {
            TokenInstruction::InitializeMint { decimals, mint_authority, freeze_authority } => {
                InstructionModel::InitializeMint {
                    decimals: *decimals,
                    mint_authority: mint_authority@,
                    freeze_authority: opt_key_view(*freeze_authority),
                }
            },
            TokenInstruction::InitializeAccount => InstructionModel::InitializeAccount,
            TokenInstruction::InitializeMultisig { m } => {
                InstructionModel::InitializeMultisig { m: *m }
            },
            TokenInstruction::Transfer { amount } => {
                InstructionModel::Transfer { amount: *amount }
            },
            TokenInstruction::Approve { amount } => InstructionModel::Approve { amount: *amount },
            TokenInstruction::Revoke => InstructionModel::Revoke,
            TokenInstruction::SetAuthority { authority_type, new_authority } => {
                InstructionModel::SetAuthority {
                    authority_type: *authority_type,
                    new_authority: opt_key_view(*new_authority),
                }
            },
            TokenInstruction::MintTo { amount } => InstructionModel::MintTo { amount: *amount },
            TokenInstruction::Burn { amount } => InstructionModel::Burn { amount: *amount },
            TokenInstruction::CloseAccount => InstructionModel::CloseAccount,
            TokenInstruction::FreezeAccount => InstructionModel::FreezeAccount,
            TokenInstruction::ThawAccount => InstructionModel::ThawAccount,
            TokenInstruction::TransferChecked { amount, decimals } => {
                InstructionModel::TransferChecked { amount: *amount, decimals: *decimals }
            },
            TokenInstruction::ApproveChecked { amount, decimals } => {
                InstructionModel::ApproveChecked { amount: *amount, decimals: *decimals }
            },
            TokenInstruction::MintToChecked { amount, decimals } => {
                InstructionModel::MintToChecked { amount: *amount, decimals: *decimals }
            },
            TokenInstruction::BurnChecked { amount, decimals } => {
                InstructionModel::BurnChecked { amount: *amount, decimals: *decimals }
            },
            TokenInstruction::InitializeAccount2 { owner } => {
                InstructionModel::InitializeAccount2 { owner: owner@ }
            },
            TokenInstruction::SyncNative => InstructionModel::SyncNative,
            TokenInstruction::InitializeAccount3 { owner } => {
                InstructionModel::InitializeAccount3 { owner: owner@ }
            },
            TokenInstruction::InitializeMultisig2 { m } => {
                InstructionModel::InitializeMultisig2 { m: *m }
            },
            TokenInstruction::InitializeMint2 { decimals, mint_authority, freeze_authority } => {
                InstructionModel::InitializeMint2 {
                    decimals: *decimals,
                    mint_authority: mint_authority@,
                    freeze_authority: opt_key_view(*freeze_authority),
                }
            },
            TokenInstruction::GetAccountDataSize => InstructionModel::GetAccountDataSize,
            TokenInstruction::InitializeImmutableOwner => {
                InstructionModel::InitializeImmutableOwner
            },
            TokenInstruction::AmountToUiAmount { amount } => {
                InstructionModel::AmountToUiAmount { amount: *amount }
            },
            TokenInstruction::UiAmountToAmount { ui_amount } => {
                InstructionModel::UiAmountToAmount { ui_amount: ui_amount@ }
            },
        }
    }
}

/// Every key carried by a model value is 32 bytes.
pub open spec fn model_wf(m: InstructionModel) -> bool {
    match m {
        InstructionModel::InitializeMint { mint_authority, freeze_authority, .. } => {
            &&& mint_authority.len() == 32
            &&& (freeze_authority matches Some(k) ==> k.len() == 32)
        },
        InstructionModel::SetAuthority { new_authority, .. } => {
            new_authority matches Some(k) ==> k.len() == 32
        },
        InstructionModel::InitializeAccount2 { owner } => owner.len() == 32,
        InstructionModel::InitializeAccount3 { owner } => owner.len() == 32,
        InstructionModel::InitializeMint2 { mint_authority, freeze_authority, .. } => {
            &&& mint_authority.len() == 32
            &&& (freeze_authority matches Some(k) ==> k.len() == 32)
        },
        _ => true,
    }
}

impl TokenInstruction {
    /// Every key this instruction carries is 32 bytes.
    pub open spec fn wf(&self) -> bool {
        match self {
            TokenInstruction::InitializeMint { mint_authority, freeze_authority, .. } => {
                &&& mint_authority.wf()
                &&& opt_key_wf(*freeze_authority)
            },
            TokenInstruction::SetAuthority { new_authority, .. } => opt_key_wf(*new_authority),
            TokenInstruction::InitializeAccount2 { owner } => owner.wf(),
            TokenInstruction::InitializeAccount3 { owner } => owner.wf(),
            TokenInstruction::InitializeMint2 { mint_authority, freeze_authority, .. } => {
                &&& mint_authority.wf()
                &&& opt_key_wf(*freeze_authority)
            },
            _ => true,
        }
    }
}

/// The encoding of an instruction: the tag byte, then the variant's payload
/// laid out field by field, integers little-endian, optional keys in their
/// full 36-byte form.
pub open spec fn spec_pack_instruction(m: InstructionModel) -> Seq<u8> {
    match m {
        InstructionModel::InitializeMint { decimals, mint_authority, freeze_authority } => {
            seq![0u8, decimals] + mint_authority + spec_pack_opt_key(freeze_authority)
        },
        InstructionModel::InitializeAccount => seq![1u8],
        InstructionModel::InitializeMultisig { m } => seq![2u8, m],
        InstructionModel::Transfer { amount } => seq![3u8] + spec_u64_to_le_bytes(amount),
        InstructionModel::Approve { amount } => seq![4u8] + spec_u64_to_le_bytes(amount),
        InstructionModel::Revoke => seq![5u8],
        InstructionModel::SetAuthority { authority_type, new_authority } => {
            seq![6u8, authority_type_byte(authority_type)] + spec_pack_opt_key(new_authority)
        },
        InstructionModel::MintTo { amount } => seq![7u8] + spec_u64_to_le_bytes(amount),
        InstructionModel::Burn { amount } => seq![8u8] + spec_u64_to_le_bytes(amount),
        InstructionModel::CloseAccount => seq![9u8],
        InstructionModel::FreezeAccount => seq![10u8],
        InstructionModel::ThawAccount => seq![11u8],
        InstructionModel::TransferChecked { amount, decimals } => {
            seq![12u8] + spec_u64_to_le_bytes(amount) + seq![decimals]
        },
        InstructionModel::ApproveChecked { amount, decimals } => {
            seq![13u8] + spec_u64_to_le_bytes(amount) + seq![decimals]
        },
        InstructionModel::MintToChecked { amount, decimals } => {
            seq![14u8] + spec_u64_to_le_bytes(amount) + seq![decimals]
        },
        InstructionModel::BurnChecked { amount, decimals } => {
            seq![15u8] + spec_u64_to_le_bytes(amount) + seq![decimals]
        },
        InstructionModel::InitializeAccount2 { owner } => seq![16u8] + owner,
        InstructionModel::SyncNative => seq![17u8],
        InstructionModel::InitializeAccount3 { owner } => seq![18u8] + owner,
        InstructionModel::InitializeMultisig2 { m } => seq![19u8, m],
        InstructionModel::InitializeMint2 { decimals, mint_authority, freeze_authority } => {
            seq![20u8, decimals] + mint_authority + spec_pack_opt_key(freeze_authority)
        },
        InstructionModel::GetAccountDataSize => seq![21u8],
        InstructionModel::InitializeImmutableOwner => seq![22u8],
        InstructionModel::AmountToUiAmount { amount } => seq![23u8] + spec_u64_to_le_bytes(amount),
        InstructionModel::UiAmountToAmount { ui_amount } => seq![24u8] + encode_utf8(ui_amount),
    }
}

/// The decoding of a buffer: empty input has no tag; a known tag demands
/// the minimum length of each of its payload fields and ignores anything
/// after them; an unknown tag is rejected.
pub open spec fn spec_unpack_instruction(b: Seq<u8>) -> Result<InstructionModel, TokenError> {
    if b.len() < 1 {
        Err(TokenError::MalformedBuffer)
    } else {
        let tag = b[0];
        if tag == 0 || tag == 20 {
            if b.len() < 34 {
                Err(TokenError::MalformedBuffer)
            } else {
                match spec_unpack_opt_key(b.subrange(34, b.len() as int)) {
                    Ok(freeze_authority) => {
                        if tag == 0 {
                            Ok(InstructionModel::InitializeMint {
                                decimals: b[1],
                                mint_authority: b.subrange(2, 34),
                                freeze_authority,
                            })
                        } else {
                            Ok(InstructionModel::InitializeMint2 {
                                decimals: b[1],
                                mint_authority: b.subrange(2, 34),
                                freeze_authority,
                            })
                        }
                    },
                    Err(e) => Err(e),
                }
            }
        } else if tag == 1 {
            Ok(InstructionModel::InitializeAccount)
        } else if tag == 2 || tag == 19 {
            if b.len() < 2 {
                Err(TokenError::MalformedBuffer)
            } else {
                if tag == 2 {
                    Ok(InstructionModel::InitializeMultisig { m: b[1] })
                } else {
                    Ok(InstructionModel::InitializeMultisig2 { m: b[1] })
                }
            }
        } else if tag == 3 || tag == 4 || tag == 7 || tag == 8 || tag == 23 {
            if b.len() < 9 {
                Err(TokenError::MalformedBuffer)
            } else {
                let amount = spec_u64_from_le_bytes(b.subrange(1, 9));
                if tag == 3 {
                    Ok(InstructionModel::Transfer { amount })
                } else if tag == 4 {
                    Ok(InstructionModel::Approve { amount })
                } else if tag == 7 {
                    Ok(InstructionModel::MintTo { amount })
                } else if tag == 8 {
                    Ok(InstructionModel::Burn { amount })
                } else {
                    Ok(InstructionModel::AmountToUiAmount { amount })
                }
            }
        } else if tag == 5 {
            Ok(InstructionModel::Revoke)
        } else if tag == 6 {
            if b.len() < 2 {
                Err(TokenError::MalformedBuffer)
            } else {
                match spec_authority_type_from(b[1]) {
                    Ok(authority_type) => {
                        match spec_unpack_opt_key(b.subrange(2, b.len() as int)) {
                            Ok(new_authority) => {
                                Ok(InstructionModel::SetAuthority { authority_type, new_authority })
                            },
                            Err(e) => Err(e),
                        }
                    },
                    Err(e) => Err(e),
                }
            }
        } else if tag == 9 {
            Ok(InstructionModel::CloseAccount)
        } else if tag == 10 {
            Ok(InstructionModel::FreezeAccount)
        } else if tag == 11 {
            Ok(InstructionModel::ThawAccount)
        } else if tag == 12 || tag == 13 || tag == 14 || tag == 15 {
            if b.len() < 10 {
                Err(TokenError::MalformedBuffer)
            } else {
                let amount = spec_u64_from_le_bytes(b.subrange(1, 9));
                let decimals = b[9];
                if tag == 12 {
                    Ok(InstructionModel::TransferChecked { amount, decimals })
                } else if tag == 13 {
                    Ok(InstructionModel::ApproveChecked { amount, decimals })
                } else if tag == 14 {
                    Ok(InstructionModel::MintToChecked { amount, decimals })
                } else {
                    Ok(InstructionModel::BurnChecked { amount, decimals })
                }
            }
        } else if tag == 16 || tag == 18 {
            if b.len() < 33 {
                Err(TokenError::MalformedBuffer)
            } else {
                if tag == 16 {
                    Ok(InstructionModel::InitializeAccount2 { owner: b.subrange(1, 33) })
                } else {
                    Ok(InstructionModel::InitializeAccount3 { owner: b.subrange(1, 33) })
                }
            }
        } else if tag == 17 {
            Ok(InstructionModel::SyncNative)
        } else if tag == 21 {
            Ok(InstructionModel::GetAccountDataSize)
        } else if tag == 22 {
            Ok(InstructionModel::InitializeImmutableOwner)
        } else if tag == 24 {
            if valid_utf8(b.subrange(1, b.len() as int)) {
                Ok(InstructionModel::UiAmountToAmount {
                    ui_amount: decode_utf8(b.subrange(1, b.len() as int)),
                })
            } else {
                Err(TokenError::InvalidText)
            }
        } else {
            Err(TokenError::UnknownDiscriminant)
        }
    }
}

/// The model of an unpack result, for stating `unpack`'s contract.
pub open spec fn instruction_result_view(r: Result<TokenInstruction, TokenError>) -> Result<
    InstructionModel,
    TokenError,
> {
    match r {
        Ok(x) => Ok(x@),
        Err(e) => Err(e),
    }
}

/// Relies on std's str::from_utf8: it returns Ok exactly when the bytes
/// are valid UTF-8, and the characters it yields are their decoding.
#[verifier::external_body]
fn bytes_to_string(v: &[u8]) -> (r: Option<String>)
    ensures
        match r {
            Some(s) => valid_utf8(v@) && s@ == decode_utf8(v@),
            None => !valid_utf8(v@),
        },
{
    match std::str::from_utf8(v) {
        Ok(s) => Some(s.to_owned()),
        Err(_) => None,
    }
}

impl TokenInstruction {
    /// Decodes an instruction from its wire bytes. The first byte selects
    /// the variant; each payload field must be present in full, and bytes
    /// after the consumed payload are ignored.
    pub fn unpack(input: &[u8]) -> (r: Result<TokenInstruction, TokenError>)
        ensures
            instruction_result_view(r) == spec_unpack_instruction(input@),
            (r matches Ok(x) ==> x.wf()),
    {
        let len = input.len();
        if len < 1 {
            return Err(TokenError::MalformedBuffer);
        }
        let tag = read_byte_at(input, 0);
        match tag {
            0 | 20 => {
                if len < 34 {
                    return Err(TokenError::MalformedBuffer);
                }
                let decimals = read_byte_at(input, 1);
                let mint_authority = read_key_at(input, 2);
                match unpack_opt_key_at(input, 34) {
                    Ok(freeze_authority) => {
                        if tag == 0 {
                            Ok(TokenInstruction::InitializeMint {
                                decimals,
                                mint_authority,
                                freeze_authority,
                            })
                        } else {
                            Ok(TokenInstruction::InitializeMint2 {
                                decimals,
                                mint_authority,
                                freeze_authority,
                            })
                        }
                    },
                    Err(e) => Err(e),
                }
            },
            1 => Ok(TokenInstruction::InitializeAccount),
            2 | 19 => {
                if len < 2 {
                    return Err(TokenError::MalformedBuffer);
                }
                let m = read_byte_at(input, 1);
                if tag == 2 {
                    Ok(TokenInstruction::InitializeMultisig { m })
                } else {
                    Ok(TokenInstruction::InitializeMultisig2 { m })
                }
            },
            3 | 4 | 7 | 8 | 23 => {
                if len < 9 {
                    return Err(TokenError::MalformedBuffer);
                }
                let amount = read_u64_at(input, 1);
                if tag == 3 {
                    Ok(TokenInstruction::Transfer { amount })
                } else if tag == 4 {
                    Ok(TokenInstruction::Approve { amount })
                } else if tag == 7 {
                    Ok(TokenInstruction::MintTo { amount })
                } else if tag == 8 {
                    Ok(TokenInstruction::Burn { amount })
                } else {
                    Ok(TokenInstruction::AmountToUiAmount { amount })
                }
            },
            5 => Ok(TokenInstruction::Revoke),
            6 => {
                if len < 2 {
                    return Err(TokenError::MalformedBuffer);
                }
                let authority_type = match AuthorityType::from(read_byte_at(input, 1)) {
                    Ok(a) => a,
                    Err(e) => {
                        return Err(e);
                    },
                };
                match unpack_opt_key_at(input, 2) {
                    Ok(new_authority) => {
                        Ok(TokenInstruction::SetAuthority { authority_type, new_authority })
                    },
                    Err(e) => Err(e),
                }
            },
            9 => Ok(TokenInstruction::CloseAccount),
            10 => Ok(TokenInstruction::FreezeAccount),
            11 => Ok(TokenInstruction::ThawAccount),
            12 | 13 | 14 | 15 => {
                if len < 10 {
                    return Err(TokenError::MalformedBuffer);
                }
                let amount = read_u64_at(input, 1);
                let decimals = read_byte_at(input, 9);
                if tag == 12 {
                    Ok(TokenInstruction::TransferChecked { amount, decimals })
                } else if tag == 13 {
                    Ok(TokenInstruction::ApproveChecked { amount, decimals })
                } else if tag == 14 {
                    Ok(TokenInstruction::MintToChecked { amount, decimals })
                } else {
                    Ok(TokenInstruction::BurnChecked { amount, decimals })
                }
            },
            16 | 18 => {
                if len < 33 {
                    return Err(TokenError::MalformedBuffer);
                }
                let owner = read_key_at(input, 1);
                if tag == 16 {
                    Ok(TokenInstruction::InitializeAccount2 { owner })
                } else {
                    Ok(TokenInstruction::InitializeAccount3 { owner })
                }
            },
            17 => Ok(TokenInstruction::SyncNative),
            21 => Ok(TokenInstruction::GetAccountDataSize),
            22 => Ok(TokenInstruction::InitializeImmutableOwner),
            24 => {
                let rest = vstd::slice::slice_subrange(input, 1, len);
                match bytes_to_string(rest) {
                    Some(ui_amount) => Ok(TokenInstruction::UiAmountToAmount { ui_amount }),
                    None => Err(TokenError::InvalidText),
                }
            },
            _ => Err(TokenError::UnknownDiscriminant),
        }
    }

    /// Encodes this instruction as its wire bytes. Encoding never fails:
    /// every well-formed in-memory instruction has an encoding.
    pub fn pack(&self) -> (r: Vec<u8>)
        requires
            self.wf(),
        ensures
            r@ == spec_pack_instruction(self@),
    {
        let mut buf: Vec<u8> = Vec::new();
        match self {
            TokenInstruction::InitializeMint { decimals, mint_authority, freeze_authority } => {
                buf.push(0u8);
                buf.push(*decimals);
                push_bytes(&mut buf, mint_authority.as_bytes().as_slice());
                pack_opt_key_into(&mut buf, freeze_authority);
                proof {
                    assert(buf@ =~= spec_pack_instruction(self@));
                }
            },
            TokenInstruction::InitializeAccount => {
                buf.push(1u8);
                proof {
                    assert(buf@ =~= spec_pack_instruction(self@));
                }
            },
            TokenInstruction::InitializeMultisig { m } => {
                buf.push(2u8);
                buf.push(*m);
                proof {
                    assert(buf@ =~= spec_pack_instruction(self@));
                }
            },
            TokenInstruction::Transfer { amount } => {
                buf.push(3u8);
                let bytes = u64_to_le_bytes(*amount);
                push_bytes(&mut buf, bytes.as_slice());
                proof {
                    assert(buf@ =~= spec_pack_instruction(self@));
                }
            },
            TokenInstruction::Approve { amount } => {
                buf.push(4u8);
                let bytes = u64_to_le_bytes(*amount);
                push_bytes(&mut buf, bytes.as_slice());
                proof {
                    assert(buf@ =~= spec_pack_instruction(self@));
                }
            },
            TokenInstruction::Revoke => {
                buf.push(5u8);
                proof {
                    assert(buf@ =~= spec_pack_instruction(self@));
                }
            },
            TokenInstruction::SetAuthority { authority_type, new_authority } => {
                buf.push(6u8);
                buf.push(authority_type.into());
                pack_opt_key_into(&mut buf, new_authority);
                proof {
                    assert(buf@ =~= spec_pack_instruction(self@));
                }
            },
            TokenInstruction::MintTo { amount } => {
                buf.push(7u8);
                let bytes = u64_to_le_bytes(*amount);
                push_bytes(&mut buf, bytes.as_slice());
                proof {
                    assert(buf@ =~= spec_pack_instruction(self@));
                }
            },
            TokenInstruction::Burn { amount } => {
                buf.push(8u8);
                let bytes = u64_to_le_bytes(*amount);
                push_bytes(&mut buf, bytes.as_slice());
                proof {
                    assert(buf@ =~= spec_pack_instruction(self@));
                }
            },
            TokenInstruction::CloseAccount => {
                buf.push(9u8);
                proof {
                    assert(buf@ =~= spec_pack_instruction(self@));
                }
            },
            TokenInstruction::FreezeAccount => {
                buf.push(10u8);
                proof {
                    assert(buf@ =~= spec_pack_instruction(self@));
                }
            },
            TokenInstruction::ThawAccount => {
                buf.push(11u8);
                proof {
                    assert(buf@ =~= spec_pack_instruction(self@));
                }
            },
            TokenInstruction::TransferChecked { amount, decimals } => {
                buf.push(12u8);
                let bytes = u64_to_le_bytes(*amount);
                push_bytes(&mut buf, bytes.as_slice());
                buf.push(*decimals);
                proof {
                    assert(buf@ =~= spec_pack_instruction(self@));
                }
            },
            TokenInstruction::ApproveChecked { amount, decimals } => {
                buf.push(13u8);
                let bytes = u64_to_le_bytes(*amount);
                push_bytes(&mut buf, bytes.as_slice());
                buf.push(*decimals);
                proof {
                    assert(buf@ =~= spec_pack_instruction(self@));
                }
            },
            TokenInstruction::MintToChecked { amount, decimals } => {
                buf.push(14u8);
                let bytes = u64_to_le_bytes(*amount);
                push_bytes(&mut buf, bytes.as_slice());
                buf.push(*decimals);
                proof {
                    assert(buf@ =~= spec_pack_instruction(self@));
                }
            },
            TokenInstruction::BurnChecked { amount, decimals } => {
                buf.push(15u8);
                let bytes = u64_to_le_bytes(*amount);
                push_bytes(&mut buf, bytes.as_slice());
                buf.push(*decimals);
                proof {
                    assert(buf@ =~= spec_pack_instruction(self@));
                }
            },
            TokenInstruction::InitializeAccount2 { owner } => {
                buf.push(16u8);
                push_bytes(&mut buf, owner.as_bytes().as_slice());
                proof {
                    assert(buf@ =~= spec_pack_instruction(self@));
                }
            },
            TokenInstruction::SyncNative => {
                buf.push(17u8);
                proof {
                    assert(buf@ =~= spec_pack_instruction(self@));
                }
            },
            TokenInstruction::InitializeAccount3 { owner } => {
                buf.push(18u8);
                push_bytes(&mut buf, owner.as_bytes().as_slice());
                proof {
                    assert(buf@ =~= spec_pack_instruction(self@));
                }
            },
            TokenInstruction::InitializeMultisig2 { m } => {
                buf.push(19u8);
                buf.push(*m);
                proof {
                    assert(buf@ =~= spec_pack_instruction(self@));
                }
            },
            TokenInstruction::InitializeMint2 { decimals, mint_authority, freeze_authority } => {
                buf.push(20u8);
                buf.push(*decimals);
                push_bytes(&mut buf, mint_authority.as_bytes().as_slice());
                pack_opt_key_into(&mut buf, freeze_authority);
                proof {
                    assert(buf@ =~= spec_pack_instruction(self@));
                }
            },
            TokenInstruction::GetAccountDataSize => {
                buf.push(21u8);
                proof {
                    assert(buf@ =~= spec_pack_instruction(self@));
                }
            },
            TokenInstruction::InitializeImmutableOwner => {
                buf.push(22u8);
                proof {
                    assert(buf@ =~= spec_pack_instruction(self@));
                }
            },
            TokenInstruction::AmountToUiAmount { amount } => {
                buf.push(23u8);
                let bytes = u64_to_le_bytes(*amount);
                push_bytes(&mut buf, bytes.as_slice());
                proof {
                    assert(buf@ =~= spec_pack_instruction(self@));
                }
            },
            TokenInstruction::UiAmountToAmount { ui_amount } => {
                buf.push(24u8);
                push_bytes(&mut buf, ui_amount.as_str().as_bytes());
                proof {
                    assert(buf@ =~= spec_pack_instruction(self@));
                }
            },
        }
        buf
    }
}

/// Law: decoding an encoded instruction gives the instruction back, for
/// every variant and every well-formed value.
pub proof fn lemma_instruction_round_trip(m: InstructionModel)
    requires
        model_wf(m),
    ensures
        spec_unpack_instruction(spec_pack_instruction(m)) == Ok::<InstructionModel, TokenError>(m),
{
    let b = spec_pack_instruction(m);
    vstd::bytes::lemma_auto_spec_u64_to_from_le_bytes();
    match m {
        InstructionModel::InitializeMint { decimals, mint_authority, freeze_authority } => {
            assert(b.len() == 70);
            assert(b.subrange(2, 34) =~= mint_authority);
            assert(b.subrange(34, b.len() as int) =~= spec_pack_opt_key(freeze_authority));
            lemma_opt_key_round_trip(freeze_authority);
        },
        InstructionModel::InitializeMint2 { decimals, mint_authority, freeze_authority } => {
            assert(b.len() == 70);
            assert(b.subrange(2, 34) =~= mint_authority);
            assert(b.subrange(34, b.len() as int) =~= spec_pack_opt_key(freeze_authority));
            lemma_opt_key_round_trip(freeze_authority);
        },
        InstructionModel::Transfer { amount } => {
            assert(b.subrange(1, 9) =~= spec_u64_to_le_bytes(amount));
        },
        InstructionModel::Approve { amount } => {
            assert(b.subrange(1, 9) =~= spec_u64_to_le_bytes(amount));
        },
        InstructionModel::MintTo { amount } => {
            assert(b.subrange(1, 9) =~= spec_u64_to_le_bytes(amount));
        },
        InstructionModel::Burn { amount } => {
            assert(b.subrange(1, 9) =~= spec_u64_to_le_bytes(amount));
        },
        InstructionModel::AmountToUiAmount { amount } => {
            assert(b.subrange(1, 9) =~= spec_u64_to_le_bytes(amount));
        },
        InstructionModel::SetAuthority { authority_type, new_authority } => {
            assert(b.len() == 38);
            assert(spec_authority_type_from(authority_type_byte(authority_type)) == Ok::<
                AuthorityType,
                TokenError,
            >(authority_type));
            assert(b.subrange(2, b.len() as int) =~= spec_pack_opt_key(new_authority));
            lemma_opt_key_round_trip(new_authority);
        },
        InstructionModel::TransferChecked { amount, decimals } => {
            assert(b.len() == 10);
            assert(b.subrange(1, 9) =~= spec_u64_to_le_bytes(amount));
            assert(b[9] == decimals);
        },
        InstructionModel::ApproveChecked { amount, decimals } => {
            assert(b.len() == 10);
            assert(b.subrange(1, 9) =~= spec_u64_to_le_bytes(amount));
            assert(b[9] == decimals);
        },
        InstructionModel::MintToChecked { amount, decimals } => {
            assert(b.len() == 10);
            assert(b.subrange(1, 9) =~= spec_u64_to_le_bytes(amount));
            assert(b[9] == decimals);
        },
        InstructionModel::BurnChecked { amount, decimals } => {
            assert(b.len() == 10);
            assert(b.subrange(1, 9) =~= spec_u64_to_le_bytes(amount));
            assert(b[9] == decimals);
        },
        InstructionModel::InitializeAccount2 { owner } => {
            assert(b.len() == 33);
            assert(b.subrange(1, 33) =~= owner);
        },
        InstructionModel::InitializeAccount3 { owner } => {
            assert(b.len() == 33);
            assert(b.subrange(1, 33) =~= owner);
        },
        InstructionModel::UiAmountToAmount { ui_amount } => {
            vstd::utf8::encode_utf8_valid_utf8(ui_amount);
            vstd::utf8::encode_utf8_decode_utf8(ui_amount);
            assert(b.subrange(1, b.len() as int) =~= encode_utf8(ui_amount));
        },
        _ => {},
    }
}

/// Law: the empty buffer holds no tag byte and is rejected.
pub proof fn lemma_empty_buffer_rejected()
    ensures
        spec_unpack_instruction(Seq::<u8>::empty()) == Err::<InstructionModel, TokenError>(
            TokenError::MalformedBuffer,
        ),
{
}

/// Law: a buffer holding only a tag byte is rejected for every variant
/// whose payload is non-empty.
pub proof fn lemma_tag_alone_rejected(b: Seq<u8>)
    requires
        b.len() == 1,
        b[0] == 0 || b[0] == 2 || b[0] == 3 || b[0] == 4 || b[0] == 6 || b[0] == 7 || b[0] == 8 || (
        12 <= b[0] <= 16) || b[0] == 18 || b[0] == 19 || b[0] == 20 || b[0] == 23,
    ensures
        spec_unpack_instruction(b) == Err::<InstructionModel, TokenError>(
            TokenError::MalformedBuffer,
        ),
{
}

/// Law: any tag of 25 or more names no variant and is rejected.
pub proof fn lemma_unknown_tag_rejected(b: Seq<u8>)
    requires
        b.len() >= 1,
        b[0] >= 25,
    ensures
        spec_unpack_instruction(b) == Err::<InstructionModel, TokenError>(
            TokenError::UnknownDiscriminant,
        ),
{
}

} // verus!
