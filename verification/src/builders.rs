//! Builders that assemble one encoded instruction together with the list
//! of accounts the operation touches, after checking that the target
//! program id is the token program's.

use vstd::prelude::*;

use crate::error::TokenError;
use crate::instruction::{AuthorityType, InstructionModel, TokenInstruction, spec_pack_instruction};
use crate::option_codec::{opt_key_view, opt_key_wf};
use crate::pubkey::Pubkey;
use crate::{MAX_SIGNERS, MIN_SIGNERS};

verus! {

/// An account an instruction touches, with its access flags.
#[derive(Debug, PartialEq, Eq)]
pub struct AccountMeta {
    /// The account's address.
    pub pubkey: Pubkey,
    /// Whether the account must sign the transaction.
    pub is_signer: bool,
    /// Whether the instruction may write to the account.
    pub is_writable: bool,
}

/// The mathematical shape of an account entry.
pub struct AccountMetaModel {
    /// The account's address bytes.
    pub pubkey: Seq<u8>,
    /// Whether the account must sign the transaction.
    pub is_signer: bool,
    /// Whether the instruction may write to the account.
    pub is_writable: bool,
}

impl View for AccountMeta {
    type V = AccountMetaModel;

    open spec fn view(&self) -> AccountMetaModel {
        AccountMetaModel {
            pubkey: self.pubkey@,
            is_signer: self.is_signer,
            is_writable: self.is_writable,
        }
    }
}

/// Shorthand for an account entry's model.
pub open spec fn meta(pubkey: Seq<u8>, is_signer: bool, is_writable: bool) -> AccountMetaModel {
    AccountMetaModel { pubkey, is_signer, is_writable }
}

impl AccountMeta {
    /// A writable account entry.
    pub fn new(pubkey: Pubkey, is_signer: bool) -> (r: AccountMeta)
        ensures
            r@ == meta(pubkey@, is_signer, true),
    {
        AccountMeta { pubkey, is_signer, is_writable: true }
    }

    /// A read-only account entry.
    pub fn new_readonly(pubkey: Pubkey, is_signer: bool) -> (r: AccountMeta)
        ensures
            r@ == meta(pubkey@, is_signer, false),
    {
        AccountMeta { pubkey, is_signer, is_writable: false }
    }
}

/// One instruction ready to submit: the target program, the accounts it
/// touches, and its encoded data.
#[derive(Debug, PartialEq, Eq)]
pub struct Instruction {
    /// The program that executes this instruction.
    pub program_id: Pubkey,
    /// The accounts the instruction touches.
    pub accounts: Vec<AccountMeta>,
    /// The encoded instruction data.
    pub data: Vec<u8>,
}

/// Whether a 32-byte key is the token program's id. Only
/// `check_program_account` decides this; the builders' contracts are
/// stated over it.
pub uninterp spec fn is_token_program(key: Seq<u8>) -> bool;

/// Relies on spl_token::check_program_account: it returns Ok exactly when
/// the key equals the token program's id, and IncorrectProgramId otherwise.
#[verifier::external_body]
fn check_program_account(program_id: &Pubkey) -> (r: Result<(), TokenError>)
    requires
        program_id.wf(),
    ensures
        r is Ok <==> is_token_program(program_id@),
        (r matches Err(e) ==> e == TokenError::IncorrectProgramId),
{
    let mut arr = [0u8; 32];
    arr.copy_from_slice(program_id.bytes.as_slice());
    let key = spl_token::solana_program::pubkey::Pubkey::new_from_array(arr);
    match spl_token::check_program_account(&key) {
        Ok(()) => Ok(()),
        Err(_) => Err(TokenError::IncorrectProgramId),
    }
}

/// Relies on solana_program::sysvar::rent::id: the 32-byte address of the
/// rent sysvar account.
#[verifier::external_body]
#[allow(deprecated)]
fn rent_sysvar_id() -> (r: Pubkey)
    ensures
        r.wf(),
{
    let id = solana_program::sysvar::rent::id();
    Pubkey { bytes: id.to_bytes().to_vec() }
}

/// Whether `index` is an acceptable multisignature signer count or
/// threshold.
pub fn is_valid_signer_index(index: usize) -> (r: bool)
    ensures
        r == (MIN_SIGNERS <= index && index <= MAX_SIGNERS),
{
    MIN_SIGNERS <= index && index <= MAX_SIGNERS
}

/// The conditions under which a multisignature may be created: threshold
/// and signer count both in range, and the threshold not above the count.
pub open spec fn multisig_counts_ok(m: u8, n_signers: int) -> bool {
    &&& MIN_SIGNERS <= m && m <= MAX_SIGNERS
    &&& MIN_SIGNERS <= n_signers && n_signers <= MAX_SIGNERS
    &&& m <= n_signers
}

/// The byte view of an optional borrowed key.
pub open spec fn opt_ref_key_view(o: Option<&Pubkey>) -> Option<Seq<u8>> {
    match o {
        Some(p) => Some(p@),
        None => None,
    }
}

/// Every key held by an optional borrowed key is 32 bytes.
pub open spec fn opt_ref_key_wf(o: Option<&Pubkey>) -> bool {
    match o {
        Some(p) => p.wf(),
        None => true,
    }
}

/// Clones an optional borrowed key into an owned one.
fn clone_opt_key(o: Option<&Pubkey>) -> (r: Option<Pubkey>)
    ensures
        opt_key_view(r) == opt_ref_key_view(o),
        (opt_ref_key_wf(o) ==> opt_key_wf(r)),
{
    match o {
        Some(p) => Some(p.clone()),
        None => None,
    }
}

/// Appends one read-only entry per signer key, all with the same signer
/// flag.
fn push_signers(accounts: &mut Vec<AccountMeta>, signers: &Vec<Pubkey>, as_signer: bool)
    ensures
        final(accounts)@.len() == old(accounts)@.len() + signers@.len(),
        forall|j: int| 0 <= j < old(accounts)@.len() ==> final(accounts)@[j] == old(accounts)@[j],
        forall|j: int|
            0 <= j < signers@.len() ==> (#[trigger] final(accounts)@[old(accounts)@.len() + j])@
                == meta(signers@[j]@, as_signer, false),
{
    let mut i: usize = 0;
    while i < signers.len()
        invariant
            i <= signers@.len(),
            accounts@.len() == old(accounts)@.len() + i,
            forall|j: int| 0 <= j < old(accounts)@.len() ==> accounts@[j] == old(accounts)@[j],
            forall|j: int|
                0 <= j < i ==> (#[trigger] accounts@[old(accounts)@.len() + j])@ == meta(
                    signers@[j]@,
                    as_signer,
                    false,
                ),
        decreases signers@.len() - i,
    {
        accounts.push(AccountMeta::new_readonly(signers[i].clone(), as_signer));
        i += 1;
    }
}

/// Builds an `InitializeMint` instruction: the mint account plus the rent
/// sysvar, with the encoded decimals and authorities.
pub fn initialize_mint(
    token_program_id: &Pubkey,
    mint_pubkey: &Pubkey,
    mint_authority_pubkey: &Pubkey,
    freeze_authority_pubkey: Option<&Pubkey>,
    decimals: u8,
) -> (r: Result<Instruction, TokenError>)
    requires
        token_program_id.wf(),
        mint_pubkey.wf(),
        mint_authority_pubkey.wf(),
        opt_ref_key_wf(freeze_authority_pubkey),
    ensures
        r is Ok <==> is_token_program(token_program_id@),
        (r matches Err(e) ==> e == TokenError::IncorrectProgramId),
        (r matches Ok(ins) ==> {
            &&& ins.program_id@ == token_program_id@
            &&& ins.data@ == spec_pack_instruction(
                InstructionModel::InitializeMint {
                    decimals,
                    mint_authority: mint_authority_pubkey@,
                    freeze_authority: opt_ref_key_view(freeze_authority_pubkey),
                },
            )
            &&& ins.accounts@.len() == 2
            &&& ins.accounts@[0]@ == meta(mint_pubkey@, false, true)
            &&& ins.accounts@[1]@.is_signer == false
            &&& ins.accounts@[1]@.is_writable == false
            &&& ins.accounts@[1]@.pubkey.len() == 32
        }),
{
    if let Err(e) = check_program_account(token_program_id) {
        return Err(e);
    }
    let freeze_authority = clone_opt_key(freeze_authority_pubkey);
    let data = (TokenInstruction::InitializeMint {
        decimals,
        mint_authority: mint_authority_pubkey.clone(),
        freeze_authority,
    }).pack();
    let mut accounts: Vec<AccountMeta> = Vec::new();
    accounts.push(AccountMeta::new(mint_pubkey.clone(), false));
    accounts.push(AccountMeta::new_readonly(rent_sysvar_id(), false));
    Ok(Instruction { program_id: token_program_id.clone(), accounts, data })
}

/// Builds an `InitializeMint2` instruction: the mint account alone, with
/// the encoded decimals and authorities.
pub fn initialize_mint2(
    token_program_id: &Pubkey,
    mint_pubkey: &Pubkey,
    mint_authority_pubkey: &Pubkey,
    freeze_authority_pubkey: Option<&Pubkey>,
    decimals: u8,
) -> (r: Result<Instruction, TokenError>)
    requires
        token_program_id.wf(),
        mint_pubkey.wf(),
        mint_authority_pubkey.wf(),
        opt_ref_key_wf(freeze_authority_pubkey),
    ensures
        r is Ok <==> is_token_program(token_program_id@),
        (r matches Err(e) ==> e == TokenError::IncorrectProgramId),
        (r matches Ok(ins) ==> {
            &&& ins.program_id@ == token_program_id@
            &&& ins.data@ == spec_pack_instruction(
                InstructionModel::InitializeMint2 {
                    decimals,
                    mint_authority: mint_authority_pubkey@,
                    freeze_authority: opt_ref_key_view(freeze_authority_pubkey),
                },
            )
            &&& ins.accounts@.len() == 1
            &&& ins.accounts@[0]@ == meta(mint_pubkey@, false, true)
        }),
{
    if let Err(e) = check_program_account(token_program_id) {
        return Err(e);
    }
    let freeze_authority = clone_opt_key(freeze_authority_pubkey);
    let data = (TokenInstruction::InitializeMint2 {
        decimals,
        mint_authority: mint_authority_pubkey.clone(),
        freeze_authority,
    }).pack();
    let mut accounts: Vec<AccountMeta> = Vec::new();
    accounts.push(AccountMeta::new(mint_pubkey.clone(), false));
    Ok(Instruction { program_id: token_program_id.clone(), accounts, data })
}

/// Builds an `InitializeAccount` instruction: the account, its mint, its
/// owner and the rent sysvar.
pub fn initialize_account(
    token_program_id: &Pubkey,
    account_pubkey: &Pubkey,
    mint_pubkey: &Pubkey,
    owner_pubkey: &Pubkey,
) -> (r: Result<Instruction, TokenError>)
    requires
        token_program_id.wf(),
        account_pubkey.wf(),
        mint_pubkey.wf(),
        owner_pubkey.wf(),
    ensures
        r is Ok <==> is_token_program(token_program_id@),
        (r matches Err(e) ==> e == TokenError::IncorrectProgramId),
        (r matches Ok(ins) ==> {
            &&& ins.program_id@ == token_program_id@
            &&& ins.data@ == spec_pack_instruction(InstructionModel::InitializeAccount)
            &&& ins.accounts@.len() == 4
            &&& ins.accounts@[0]@ == meta(account_pubkey@, false, true)
            &&& ins.accounts@[1]@ == meta(mint_pubkey@, false, false)
            &&& ins.accounts@[2]@ == meta(owner_pubkey@, false, false)
            &&& ins.accounts@[3]@.is_signer == false
            &&& ins.accounts@[3]@.is_writable == false
            &&& ins.accounts@[3]@.pubkey.len() == 32
        }),
{
    if let Err(e) = check_program_account(token_program_id) {
        return Err(e);
    }
    let data = (TokenInstruction::InitializeAccount).pack();
    let mut accounts: Vec<AccountMeta> = Vec::new();
    accounts.push(AccountMeta::new(account_pubkey.clone(), false));
    accounts.push(AccountMeta::new_readonly(mint_pubkey.clone(), false));
    accounts.push(AccountMeta::new_readonly(owner_pubkey.clone(), false));
    accounts.push(AccountMeta::new_readonly(rent_sysvar_id(), false));
    Ok(Instruction { program_id: token_program_id.clone(), accounts, data })
}

/// Builds an `InitializeAccount2` instruction: the account and its mint,
/// with the owner carried in the payload.
pub fn initialize_account2(
    token_program_id: &Pubkey,
    account_pubkey: &Pubkey,
    mint_pubkey: &Pubkey,
    owner_pubkey: &Pubkey,
) -> (r: Result<Instruction, TokenError>)
    requires
        token_program_id.wf(),
        account_pubkey.wf(),
        mint_pubkey.wf(),
        owner_pubkey.wf(),
    ensures
        r is Ok <==> is_token_program(token_program_id@),
        (r matches Err(e) ==> e == TokenError::IncorrectProgramId),
        (r matches Ok(ins) ==> {
            &&& ins.program_id@ == token_program_id@
            &&& ins.data@ == spec_pack_instruction(
                InstructionModel::InitializeAccount2 { owner: owner_pubkey@ },
            )
            &&& ins.accounts@.len() == 2
            &&& ins.accounts@[0]@ == meta(account_pubkey@, false, true)
            &&& ins.accounts@[1]@ == meta(mint_pubkey@, false, false)
        }),
{
    if let Err(e) = check_program_account(token_program_id) {
        return Err(e);
    }
    let data = (TokenInstruction::InitializeAccount2 { owner: owner_pubkey.clone() }).pack();
    let mut accounts: Vec<AccountMeta> = Vec::new();
    accounts.push(AccountMeta::new(account_pubkey.clone(), false));
    accounts.push(AccountMeta::new_readonly(mint_pubkey.clone(), false));
    Ok(Instruction { program_id: token_program_id.clone(), accounts, data })
}

/// Builds an `InitializeAccount3` instruction: like `InitializeAccount2`.
pub fn initialize_account3(
    token_program_id: &Pubkey,
    account_pubkey: &Pubkey,
    mint_pubkey: &Pubkey,
    owner_pubkey: &Pubkey,
) -> (r: Result<Instruction, TokenError>)
    requires
        token_program_id.wf(),
        account_pubkey.wf(),
        mint_pubkey.wf(),
        owner_pubkey.wf(),
    ensures
        r is Ok <==> is_token_program(token_program_id@),
        (r matches Err(e) ==> e == TokenError::IncorrectProgramId),
        (r matches Ok(ins) ==> {
            &&& ins.program_id@ == token_program_id@
            &&& ins.data@ == spec_pack_instruction(
                InstructionModel::InitializeAccount3 { owner: owner_pubkey@ },
            )
            &&& ins.accounts@.len() == 2
            &&& ins.accounts@[0]@ == meta(account_pubkey@, false, true)
            &&& ins.accounts@[1]@ == meta(mint_pubkey@, false, false)
        }),
{
    if let Err(e) = check_program_account(token_program_id) {
        return Err(e);
    }
    let data = (TokenInstruction::InitializeAccount3 { owner: owner_pubkey.clone() }).pack();
    let mut accounts: Vec<AccountMeta> = Vec::new();
    accounts.push(AccountMeta::new(account_pubkey.clone(), false));
    accounts.push(AccountMeta::new_readonly(mint_pubkey.clone(), false));
    Ok(Instruction { program_id: token_program_id.clone(), accounts, data })
}

/// Builds an `InitializeMultisig` instruction: the multisig account, the
/// rent sysvar, then one entry per signer key. The threshold `m` and the
/// number of signers must lie in the valid range, and `m` may not exceed
/// the number of signers.
pub fn initialize_multisig(
    token_program_id: &Pubkey,
    multisig_pubkey: &Pubkey,
    signer_pubkeys: &Vec<Pubkey>,
    m: u8,
) -> (r: Result<Instruction, TokenError>)
    requires
        token_program_id.wf(),
        multisig_pubkey.wf(),
    ensures
        r is Ok <==> (is_token_program(token_program_id@) && multisig_counts_ok(
            m,
            signer_pubkeys@.len() as int,
        )),
        (!is_token_program(token_program_id@) ==> r == Err::<Instruction, TokenError>(
            TokenError::IncorrectProgramId,
        )),
        (is_token_program(token_program_id@) && !multisig_counts_ok(
            m,
            signer_pubkeys@.len() as int,
        ) ==> r == Err::<Instruction, TokenError>(TokenError::ThresholdViolation)),
        (r matches Ok(ins) ==> {
            &&& ins.program_id@ == token_program_id@
            &&& ins.data@ == spec_pack_instruction(InstructionModel::InitializeMultisig { m })
            &&& ins.accounts@.len() == 2 + signer_pubkeys@.len()
            &&& ins.accounts@[0]@ == meta(multisig_pubkey@, false, true)
            &&& ins.accounts@[1]@.is_signer == false
            &&& ins.accounts@[1]@.is_writable == false
            &&& ins.accounts@[1]@.pubkey.len() == 32
            &&& (forall|j: int|
                0 <= j < signer_pubkeys@.len() ==> (#[trigger] ins.accounts@[2 + j])@ == meta(
                    signer_pubkeys@[j]@,
                    false,
                    false,
                ))
        }),
{
    if let Err(e) = check_program_account(token_program_id) {
        return Err(e);
    }
    if !is_valid_signer_index(m as usize) || !is_valid_signer_index(signer_pubkeys.len()) || m
        as usize > signer_pubkeys.len() {
        return Err(TokenError::ThresholdViolation);
    }
    let data = (TokenInstruction::InitializeMultisig { m }).pack();
    let mut accounts: Vec<AccountMeta> = Vec::new();
    accounts.push(AccountMeta::new(multisig_pubkey.clone(), false));
    accounts.push(AccountMeta::new_readonly(rent_sysvar_id(), false));
    push_signers(&mut accounts, signer_pubkeys, false);
    Ok(Instruction { program_id: token_program_id.clone(), accounts, data })
}

/// Builds an `InitializeMultisig2` instruction: like `InitializeMultisig`
/// but without the rent sysvar entry.
pub fn initialize_multisig2(
    token_program_id: &Pubkey,
    multisig_pubkey: &Pubkey,
    signer_pubkeys: &Vec<Pubkey>,
    m: u8,
) -> (r: Result<Instruction, TokenError>)
    requires
        token_program_id.wf(),
        multisig_pubkey.wf(),
    ensures
        r is Ok <==> (is_token_program(token_program_id@) && multisig_counts_ok(
            m,
            signer_pubkeys@.len() as int,
        )),
        (!is_token_program(token_program_id@) ==> r == Err::<Instruction, TokenError>(
            TokenError::IncorrectProgramId,
        )),
        (is_token_program(token_program_id@) && !multisig_counts_ok(
            m,
            signer_pubkeys@.len() as int,
        ) ==> r == Err::<Instruction, TokenError>(TokenError::ThresholdViolation)),
        (r matches Ok(ins) ==> {
            &&& ins.program_id@ == token_program_id@
            &&& ins.data@ == spec_pack_instruction(InstructionModel::InitializeMultisig2 { m })
            &&& ins.accounts@.len() == 1 + signer_pubkeys@.len()
            &&& ins.accounts@[0]@ == meta(multisig_pubkey@, false, true)
            &&& (forall|j: int|
                0 <= j < signer_pubkeys@.len() ==> (#[trigger] ins.accounts@[1 + j])@ == meta(
                    signer_pubkeys@[j]@,
                    false,
                    false,
                ))
        }),
{
    if let Err(e) = check_program_account(token_program_id) {
        return Err(e);
    }
    if !is_valid_signer_index(m as usize) || !is_valid_signer_index(signer_pubkeys.len()) || m
        as usize > signer_pubkeys.len() {
        return Err(TokenError::ThresholdViolation);
    }
    let data = (TokenInstruction::InitializeMultisig2 { m }).pack();
    let mut accounts: Vec<AccountMeta> = Vec::new();
    accounts.push(AccountMeta::new(multisig_pubkey.clone(), false));
    push_signers(&mut accounts, signer_pubkeys, false);
    Ok(Instruction { program_id: token_program_id.clone(), accounts, data })
}

/// Builds a `Transfer` instruction: source, destination, then the
/// authority, who signs directly exactly when no multisignature signers
/// are given.
pub fn transfer(
    token_program_id: &Pubkey,
    source_pubkey: &Pubkey,
    destination_pubkey: &Pubkey,
    authority_pubkey: &Pubkey,
    signer_pubkeys: &Vec<Pubkey>,
    amount: u64,
) -> (r: Result<Instruction, TokenError>)
    requires
        token_program_id.wf(),
        source_pubkey.wf(),
        destination_pubkey.wf(),
        authority_pubkey.wf(),
    ensures
        r is Ok <==> is_token_program(token_program_id@),
        (r matches Err(e) ==> e == TokenError::IncorrectProgramId),
        (r matches Ok(ins) ==> {
            &&& ins.program_id@ == token_program_id@
            &&& ins.data@ == spec_pack_instruction(InstructionModel::Transfer { amount })
            &&& ins.accounts@.len() == 3 + signer_pubkeys@.len()
            &&& ins.accounts@[0]@ == meta(source_pubkey@, false, true)
            &&& ins.accounts@[1]@ == meta(destination_pubkey@, false, true)
            &&& ins.accounts@[2]@ == meta(
                authority_pubkey@,
                signer_pubkeys@.len() == 0,
                false,
            )
            &&& (forall|j: int|
                0 <= j < signer_pubkeys@.len() ==> (#[trigger] ins.accounts@[3 + j])@ == meta(
                    signer_pubkeys@[j]@,
                    true,
                    false,
                ))
        }),
{
    if let Err(e) = check_program_account(token_program_id) {
        return Err(e);
    }
    let data = (TokenInstruction::Transfer { amount }).pack();
    let mut accounts: Vec<AccountMeta> = Vec::new();
    accounts.push(AccountMeta::new(source_pubkey.clone(), false));
    accounts.push(AccountMeta::new(destination_pubkey.clone(), false));
    accounts.push(AccountMeta::new_readonly(authority_pubkey.clone(), signer_pubkeys.is_empty()));
    push_signers(&mut accounts, signer_pubkeys, true);
    Ok(Instruction { program_id: token_program_id.clone(), accounts, data })
}

/// Builds a `Revoke` instruction: the delegated account, then the owner,
/// who signs directly exactly when no multisignature signers are given.
pub fn revoke(
    token_program_id: &Pubkey,
    source_pubkey: &Pubkey,
    owner_pubkey: &Pubkey,
    signer_pubkeys: &Vec<Pubkey>,
) -> (r: Result<Instruction, TokenError>)
    requires
        token_program_id.wf(),
        source_pubkey.wf(),
        owner_pubkey.wf(),
    ensures
        r is Ok <==> is_token_program(token_program_id@),
        (r matches Err(e) ==> e == TokenError::IncorrectProgramId),
        (r matches Ok(ins) ==> {
            &&& ins.program_id@ == token_program_id@
            &&& ins.data@ == spec_pack_instruction(InstructionModel::Revoke)
            &&& ins.accounts@.len() == 2 + signer_pubkeys@.len()
            &&& ins.accounts@[0]@ == meta(source_pubkey@, false, true)
            &&& ins.accounts@[1]@ == meta(owner_pubkey@, signer_pubkeys@.len() == 0, false)
            &&& (forall|j: int|
                0 <= j < signer_pubkeys@.len() ==> (#[trigger] ins.accounts@[2 + j])@ == meta(
                    signer_pubkeys@[j]@,
                    true,
                    false,
                ))
        }),
{
    if let Err(e) = check_program_account(token_program_id) {
        return Err(e);
    }
    let data = (TokenInstruction::Revoke).pack();
    let mut accounts: Vec<AccountMeta> = Vec::new();
    accounts.push(AccountMeta::new(source_pubkey.clone(), false));
    accounts.push(AccountMeta::new_readonly(owner_pubkey.clone(), signer_pubkeys.is_empty()));
    push_signers(&mut accounts, signer_pubkeys, true);
    Ok(Instruction { program_id: token_program_id.clone(), accounts, data })
}

/// Builds a `SetAuthority` instruction: the account whose authority is
/// replaced, then the current authority.
pub fn set_authority(
    token_program_id: &Pubkey,
    owned_pubkey: &Pubkey,
    new_authority_pubkey: Option<&Pubkey>,
    authority_type: AuthorityType,
    owner_pubkey: &Pubkey,
    signer_pubkeys: &Vec<Pubkey>,
) -> (r: Result<Instruction, TokenError>)
    requires
        token_program_id.wf(),
        owned_pubkey.wf(),
        opt_ref_key_wf(new_authority_pubkey),
        owner_pubkey.wf(),
    ensures
        r is Ok <==> is_token_program(token_program_id@),
        (r matches Err(e) ==> e == TokenError::IncorrectProgramId),
        (r matches Ok(ins) ==> {
            &&& ins.program_id@ == token_program_id@
            &&& ins.data@ == spec_pack_instruction(
                InstructionModel::SetAuthority {
                    authority_type,
                    new_authority: opt_ref_key_view(new_authority_pubkey),
                },
            )
            &&& ins.accounts@.len() == 2 + signer_pubkeys@.len()
            &&& ins.accounts@[0]@ == meta(owned_pubkey@, false, true)
            &&& ins.accounts@[1]@ == meta(owner_pubkey@, signer_pubkeys@.len() == 0, false)
            &&& (forall|j: int|
                0 <= j < signer_pubkeys@.len() ==> (#[trigger] ins.accounts@[2 + j])@ == meta(
                    signer_pubkeys@[j]@,
                    true,
                    false,
                ))
        }),
{
    if let Err(e) = check_program_account(token_program_id) {
        return Err(e);
    }
    let new_authority = clone_opt_key(new_authority_pubkey);
    let data = (TokenInstruction::SetAuthority { authority_type, new_authority }).pack();
    let mut accounts: Vec<AccountMeta> = Vec::new();
    accounts.push(AccountMeta::new(owned_pubkey.clone(), false));
    accounts.push(AccountMeta::new_readonly(owner_pubkey.clone(), signer_pubkeys.is_empty()));
    push_signers(&mut accounts, signer_pubkeys, true);
    Ok(Instruction { program_id: token_program_id.clone(), accounts, data })
}

/// Builds a `MintTo` instruction: the mint, the receiving account, then
/// the mint authority.
pub fn mint_to(
    token_program_id: &Pubkey,
    mint_pubkey: &Pubkey,
    account_pubkey: &Pubkey,
    owner_pubkey: &Pubkey,
    signer_pubkeys: &Vec<Pubkey>,
    amount: u64,
) -> (r: Result<Instruction, TokenError>)
    requires
        token_program_id.wf(),
        mint_pubkey.wf(),
        account_pubkey.wf(),
        owner_pubkey.wf(),
    ensures
        r is Ok <==> is_token_program(token_program_id@),
        (r matches Err(e) ==> e == TokenError::IncorrectProgramId),
        (r matches Ok(ins) ==> {
            &&& ins.program_id@ == token_program_id@
            &&& ins.data@ == spec_pack_instruction(InstructionModel::MintTo { amount })
            &&& ins.accounts@.len() == 3 + signer_pubkeys@.len()
            &&& ins.accounts@[0]@ == meta(mint_pubkey@, false, true)
            &&& ins.accounts@[1]@ == meta(account_pubkey@, false, true)
            &&& ins.accounts@[2]@ == meta(owner_pubkey@, signer_pubkeys@.len() == 0, false)
            &&& (forall|j: int|
                0 <= j < signer_pubkeys@.len() ==> (#[trigger] ins.accounts@[3 + j])@ == meta(
                    signer_pubkeys@[j]@,
                    true,
                    false,
                ))
        }),
{
    if let Err(e) = check_program_account(token_program_id) {
        return Err(e);
    }
    let data = (TokenInstruction::MintTo { amount }).pack();
    let mut accounts: Vec<AccountMeta> = Vec::new();
    accounts.push(AccountMeta::new(mint_pubkey.clone(), false));
    accounts.push(AccountMeta::new(account_pubkey.clone(), false));
    accounts.push(AccountMeta::new_readonly(owner_pubkey.clone(), signer_pubkeys.is_empty()));
    push_signers(&mut accounts, signer_pubkeys, true);
    Ok(Instruction { program_id: token_program_id.clone(), accounts, data })
}

/// Builds a `Burn` instruction: the holding account, the mint, then the
/// authority.
pub fn burn(
    token_program_id: &Pubkey,
    account_pubkey: &Pubkey,
    mint_pubkey: &Pubkey,
    authority_pubkey: &Pubkey,
    signer_pubkeys: &Vec<Pubkey>,
    amount: u64,
) -> (r: Result<Instruction, TokenError>)
    requires
        token_program_id.wf(),
        account_pubkey.wf(),
        mint_pubkey.wf(),
        authority_pubkey.wf(),
    ensures
        r is Ok <==> is_token_program(token_program_id@),
        (r matches Err(e) ==> e == TokenError::IncorrectProgramId),
        (r matches Ok(ins) ==> {
            &&& ins.program_id@ == token_program_id@
            &&& ins.data@ == spec_pack_instruction(InstructionModel::Burn { amount })
            &&& ins.accounts@.len() == 3 + signer_pubkeys@.len()
            &&& ins.accounts@[0]@ == meta(account_pubkey@, false, true)
            &&& ins.accounts@[1]@ == meta(mint_pubkey@, false, true)
            &&& ins.accounts@[2]@ == meta(
                authority_pubkey@,
                signer_pubkeys@.len() == 0,
                false,
            )
            &&& (forall|j: int|
                0 <= j < signer_pubkeys@.len() ==> (#[trigger] ins.accounts@[3 + j])@ == meta(
                    signer_pubkeys@[j]@,
                    true,
                    false,
                ))
        }),
{
    if let Err(e) = check_program_account(token_program_id) {
        return Err(e);
    }
    let data = (TokenInstruction::Burn { amount }).pack();
    let mut accounts: Vec<AccountMeta> = Vec::new();
    accounts.push(AccountMeta::new(account_pubkey.clone(), false));
    accounts.push(AccountMeta::new(mint_pubkey.clone(), false));
    accounts.push(AccountMeta::new_readonly(authority_pubkey.clone(), signer_pubkeys.is_empty()));
    push_signers(&mut accounts, signer_pubkeys, true);
    Ok(Instruction { program_id: token_program_id.clone(), accounts, data })
}

/// Builds a `CloseAccount` instruction: the account to close, the
/// destination for its lamports, then the owner.
pub fn close_account(
    token_program_id: &Pubkey,
    account_pubkey: &Pubkey,
    destination_pubkey: &Pubkey,
    owner_pubkey: &Pubkey,
    signer_pubkeys: &Vec<Pubkey>,
) -> (r: Result<Instruction, TokenError>)
    requires
        token_program_id.wf(),
        account_pubkey.wf(),
        destination_pubkey.wf(),
        owner_pubkey.wf(),
    ensures
        r is Ok <==> is_token_program(token_program_id@),
        (r matches Err(e) ==> e == TokenError::IncorrectProgramId),
        (r matches Ok(ins) ==> {
            &&& ins.program_id@ == token_program_id@
            &&& ins.data@ == spec_pack_instruction(InstructionModel::CloseAccount)
            &&& ins.accounts@.len() == 3 + signer_pubkeys@.len()
            &&& ins.accounts@[0]@ == meta(account_pubkey@, false, true)
            &&& ins.accounts@[1]@ == meta(destination_pubkey@, false, true)
            &&& ins.accounts@[2]@ == meta(owner_pubkey@, signer_pubkeys@.len() == 0, false)
            &&& (forall|j: int|
                0 <= j < signer_pubkeys@.len() ==> (#[trigger] ins.accounts@[3 + j])@ == meta(
                    signer_pubkeys@[j]@,
                    true,
                    false,
                ))
        }),
{
    if let Err(e) = check_program_account(token_program_id) {
        return Err(e);
    }
    let data = (TokenInstruction::CloseAccount).pack();
    let mut accounts: Vec<AccountMeta> = Vec::new();
    accounts.push(AccountMeta::new(account_pubkey.clone(), false));
    accounts.push(AccountMeta::new(destination_pubkey.clone(), false));
    accounts.push(AccountMeta::new_readonly(owner_pubkey.clone(), signer_pubkeys.is_empty()));
    push_signers(&mut accounts, signer_pubkeys, true);
    Ok(Instruction { program_id: token_program_id.clone(), accounts, data })
}

/// Builds a `FreezeAccount` instruction: the account, its mint, then the
/// mint's freeze authority.
pub fn freeze_account(
    token_program_id: &Pubkey,
    account_pubkey: &Pubkey,
    mint_pubkey: &Pubkey,
    owner_pubkey: &Pubkey,
    signer_pubkeys: &Vec<Pubkey>,
) -> (r: Result<Instruction, TokenError>)
    requires
        token_program_id.wf(),
        account_pubkey.wf(),
        mint_pubkey.wf(),
        owner_pubkey.wf(),
    ensures
        r is Ok <==> is_token_program(token_program_id@),
        (r matches Err(e) ==> e == TokenError::IncorrectProgramId),
        (r matches Ok(ins) ==> {
            &&& ins.program_id@ == token_program_id@
            &&& ins.data@ == spec_pack_instruction(InstructionModel::FreezeAccount)
            &&& ins.accounts@.len() == 3 + signer_pubkeys@.len()
            &&& ins.accounts@[0]@ == meta(account_pubkey@, false, true)
            &&& ins.accounts@[1]@ == meta(mint_pubkey@, false, false)
            &&& ins.accounts@[2]@ == meta(owner_pubkey@, signer_pubkeys@.len() == 0, false)
            &&& (forall|j: int|
                0 <= j < signer_pubkeys@.len() ==> (#[trigger] ins.accounts@[3 + j])@ == meta(
                    signer_pubkeys@[j]@,
                    true,
                    false,
                ))
        }),
{
    if let Err(e) = check_program_account(token_program_id) {
        return Err(e);
    }
    let data = (TokenInstruction::FreezeAccount).pack();
    let mut accounts: Vec<AccountMeta> = Vec::new();
    accounts.push(AccountMeta::new(account_pubkey.clone(), false));
    accounts.push(AccountMeta::new_readonly(mint_pubkey.clone(), false));
    accounts.push(AccountMeta::new_readonly(owner_pubkey.clone(), signer_pubkeys.is_empty()));
    push_signers(&mut accounts, signer_pubkeys, true);
    Ok(Instruction { program_id: token_program_id.clone(), accounts, data })
}

/// Builds a `ThawAccount` instruction: the account, its mint, then the
/// mint's freeze authority.
pub fn thaw_account(
    token_program_id: &Pubkey,
    account_pubkey: &Pubkey,
    mint_pubkey: &Pubkey,
    owner_pubkey: &Pubkey,
    signer_pubkeys: &Vec<Pubkey>,
) -> (r: Result<Instruction, TokenError>)
    requires
        token_program_id.wf(),
        account_pubkey.wf(),
        mint_pubkey.wf(),
        owner_pubkey.wf(),
    ensures
        r is Ok <==> is_token_program(token_program_id@),
        (r matches Err(e) ==> e == TokenError::IncorrectProgramId),
        (r matches Ok(ins) ==> {
            &&& ins.program_id@ == token_program_id@
            &&& ins.data@ == spec_pack_instruction(InstructionModel::ThawAccount)
            &&& ins.accounts@.len() == 3 + signer_pubkeys@.len()
            &&& ins.accounts@[0]@ == meta(account_pubkey@, false, true)
            &&& ins.accounts@[1]@ == meta(mint_pubkey@, false, false)
            &&& ins.accounts@[2]@ == meta(owner_pubkey@, signer_pubkeys@.len() == 0, false)
            &&& (forall|j: int|
                0 <= j < signer_pubkeys@.len() ==> (#[trigger] ins.accounts@[3 + j])@ == meta(
                    signer_pubkeys@[j]@,
                    true,
                    false,
                ))
        }),
{
    if let Err(e) = check_program_account(token_program_id) {
        return Err(e);
    }
    let data = (TokenInstruction::ThawAccount).pack();
    let mut accounts: Vec<AccountMeta> = Vec::new();
    accounts.push(AccountMeta::new(account_pubkey.clone(), false));
    accounts.push(AccountMeta::new_readonly(mint_pubkey.clone(), false));
    accounts.push(AccountMeta::new_readonly(owner_pubkey.clone(), signer_pubkeys.is_empty()));
    push_signers(&mut accounts, signer_pubkeys, true);
    Ok(Instruction { program_id: token_program_id.clone(), accounts, data })
}

/// Builds a `TransferChecked` instruction: source, destination, the mint,
/// then the authority.
pub fn transfer_checked(
    token_program_id: &Pubkey,
    source_pubkey: &Pubkey,
    destination_pubkey: &Pubkey,
    mint_pubkey: &Pubkey,
    authority_pubkey: &Pubkey,
    signer_pubkeys: &Vec<Pubkey>,
    amount: u64,
    decimals: u8,
) -> (r: Result<Instruction, TokenError>)
    requires
        token_program_id.wf(),
        source_pubkey.wf(),
        destination_pubkey.wf(),
        mint_pubkey.wf(),
        authority_pubkey.wf(),
    ensures
        r is Ok <==> is_token_program(token_program_id@),
        (r matches Err(e) ==> e == TokenError::IncorrectProgramId),
        (r matches Ok(ins) ==> {
            &&& ins.program_id@ == token_program_id@
            &&& ins.data@ == spec_pack_instruction(
                InstructionModel::TransferChecked { amount, decimals },
            )
            &&& ins.accounts@.len() == 4 + signer_pubkeys@.len()
            &&& ins.accounts@[0]@ == meta(source_pubkey@, false, true)
            &&& ins.accounts@[1]@ == meta(destination_pubkey@, false, true)
            &&& ins.accounts@[2]@ == meta(mint_pubkey@, false, false)
            &&& ins.accounts@[3]@ == meta(
                authority_pubkey@,
                signer_pubkeys@.len() == 0,
                false,
            )
            &&& (forall|j: int|
                0 <= j < signer_pubkeys@.len() ==> (#[trigger] ins.accounts@[4 + j])@ == meta(
                    signer_pubkeys@[j]@,
                    true,
                    false,
                ))
        }),
{
    if let Err(e) = check_program_account(token_program_id) {
        return Err(e);
    }
    let data = (TokenInstruction::TransferChecked { amount, decimals }).pack();
    let mut accounts: Vec<AccountMeta> = Vec::new();
    accounts.push(AccountMeta::new(source_pubkey.clone(), false));
    accounts.push(AccountMeta::new(destination_pubkey.clone(), false));
    accounts.push(AccountMeta::new_readonly(mint_pubkey.clone(), false));
    accounts.push(AccountMeta::new_readonly(authority_pubkey.clone(), signer_pubkeys.is_empty()));
    push_signers(&mut accounts, signer_pubkeys, true);
    Ok(Instruction { program_id: token_program_id.clone(), accounts, data })
}

/// Builds an `ApproveChecked` instruction: source, the mint, the delegate,
/// then the owner.
pub fn approve_checked(
    token_program_id: &Pubkey,
    source_pubkey: &Pubkey,
    mint_pubkey: &Pubkey,
    delegate_pubkey: &Pubkey,
    owner_pubkey: &Pubkey,
    signer_pubkeys: &Vec<Pubkey>,
    amount: u64,
    decimals: u8,
) -> (r: Result<Instruction, TokenError>)
    requires
        token_program_id.wf(),
        source_pubkey.wf(),
        mint_pubkey.wf(),
        delegate_pubkey.wf(),
        owner_pubkey.wf(),
    ensures
        r is Ok <==> is_token_program(token_program_id@),
        (r matches Err(e) ==> e == TokenError::IncorrectProgramId),
        (r matches Ok(ins) ==> {
            &&& ins.program_id@ == token_program_id@
            &&& ins.data@ == spec_pack_instruction(
                InstructionModel::ApproveChecked { amount, decimals },
            )
            &&& ins.accounts@.len() == 4 + signer_pubkeys@.len()
            &&& ins.accounts@[0]@ == meta(source_pubkey@, false, true)
            &&& ins.accounts@[1]@ == meta(mint_pubkey@, false, false)
            &&& ins.accounts@[2]@ == meta(delegate_pubkey@, false, true)
            &&& ins.accounts@[3]@ == meta(owner_pubkey@, signer_pubkeys@.len() == 0, false)
            &&& (forall|j: int|
                0 <= j < signer_pubkeys@.len() ==> (#[trigger] ins.accounts@[4 + j])@ == meta(
                    signer_pubkeys@[j]@,
                    true,
                    false,
                ))
        }),
{
    if let Err(e) = check_program_account(token_program_id) {
        return Err(e);
    }
    let data = (TokenInstruction::ApproveChecked { amount, decimals }).pack();
    let mut accounts: Vec<AccountMeta> = Vec::new();
    accounts.push(AccountMeta::new(source_pubkey.clone(), false));
    accounts.push(AccountMeta::new_readonly(mint_pubkey.clone(), false));
    accounts.push(AccountMeta::new(delegate_pubkey.clone(), false));
    accounts.push(AccountMeta::new_readonly(owner_pubkey.clone(), signer_pubkeys.is_empty()));
    push_signers(&mut accounts, signer_pubkeys, true);
    Ok(Instruction { program_id: token_program_id.clone(), accounts, data })
}

/// Builds a `MintToChecked` instruction: the mint, the receiving account,
/// then the mint authority.
pub fn mint_to_checked(
    token_program_id: &Pubkey,
    mint_pubkey: &Pubkey,
    account_pubkey: &Pubkey,
    owner_pubkey: &Pubkey,
    signer_pubkeys: &Vec<Pubkey>,
    amount: u64,
    decimals: u8,
) -> (r: Result<Instruction, TokenError>)
    requires
        token_program_id.wf(),
        mint_pubkey.wf(),
        account_pubkey.wf(),
        owner_pubkey.wf(),
    ensures
        r is Ok <==> is_token_program(token_program_id@),
        (r matches Err(e) ==> e == TokenError::IncorrectProgramId),
        (r matches Ok(ins) ==> {
            &&& ins.program_id@ == token_program_id@
            &&& ins.data@ == spec_pack_instruction(
                InstructionModel::MintToChecked { amount, decimals },
            )
            &&& ins.accounts@.len() == 3 + signer_pubkeys@.len()
            &&& ins.accounts@[0]@ == meta(mint_pubkey@, false, true)
            &&& ins.accounts@[1]@ == meta(account_pubkey@, false, true)
            &&& ins.accounts@[2]@ == meta(owner_pubkey@, signer_pubkeys@.len() == 0, false)
            &&& (forall|j: int|
                0 <= j < signer_pubkeys@.len() ==> (#[trigger] ins.accounts@[3 + j])@ == meta(
                    signer_pubkeys@[j]@,
                    true,
                    false,
                ))
        }),
{
    if let Err(e) = check_program_account(token_program_id) {
        return Err(e);
    }
    let data = (TokenInstruction::MintToChecked { amount, decimals }).pack();
    let mut accounts: Vec<AccountMeta> = Vec::new();
    accounts.push(AccountMeta::new(mint_pubkey.clone(), false));
    accounts.push(AccountMeta::new(account_pubkey.clone(), false));
    accounts.push(AccountMeta::new_readonly(owner_pubkey.clone(), signer_pubkeys.is_empty()));
    push_signers(&mut accounts, signer_pubkeys, true);
    Ok(Instruction { program_id: token_program_id.clone(), accounts, data })
}

/// Builds a `BurnChecked` instruction: the holding account, the mint, then
/// the authority.
pub fn burn_checked(
    token_program_id: &Pubkey,
    account_pubkey: &Pubkey,
    mint_pubkey: &Pubkey,
    authority_pubkey: &Pubkey,
    signer_pubkeys: &Vec<Pubkey>,
    amount: u64,
    decimals: u8,
) -> (r: Result<Instruction, TokenError>)
    requires
        token_program_id.wf(),
        account_pubkey.wf(),
        mint_pubkey.wf(),
        authority_pubkey.wf(),
    ensures
        r is Ok <==> is_token_program(token_program_id@),
        (r matches Err(e) ==> e == TokenError::IncorrectProgramId),
        (r matches Ok(ins) ==> {
            &&& ins.program_id@ == token_program_id@
            &&& ins.data@ == spec_pack_instruction(
                InstructionModel::BurnChecked { amount, decimals },
            )
            &&& ins.accounts@.len() == 3 + signer_pubkeys@.len()
            &&& ins.accounts@[0]@ == meta(account_pubkey@, false, true)
            &&& ins.accounts@[1]@ == meta(mint_pubkey@, false, true)
            &&& ins.accounts@[2]@ == meta(
                authority_pubkey@,
                signer_pubkeys@.len() == 0,
                false,
            )
            &&& (forall|j: int|
                0 <= j < signer_pubkeys@.len() ==> (#[trigger] ins.accounts@[3 + j])@ == meta(
                    signer_pubkeys@[j]@,
                    true,
                    false,
                ))
        }),
{
    if let Err(e) = check_program_account(token_program_id) {
        return Err(e);
    }
    let data = (TokenInstruction::BurnChecked { amount, decimals }).pack();
    let mut accounts: Vec<AccountMeta> = Vec::new();
    accounts.push(AccountMeta::new(account_pubkey.clone(), false));
    accounts.push(AccountMeta::new(mint_pubkey.clone(), false));
    accounts.push(AccountMeta::new_readonly(authority_pubkey.clone(), signer_pubkeys.is_empty()));
    push_signers(&mut accounts, signer_pubkeys, true);
    Ok(Instruction { program_id: token_program_id.clone(), accounts, data })
}

/// Builds a `SyncNative` instruction on the given native token account.
pub fn sync_native(token_program_id: &Pubkey, account_pubkey: &Pubkey) -> (r: Result<
    Instruction,
    TokenError,
>)
    requires
        token_program_id.wf(),
        account_pubkey.wf(),
    ensures
        r is Ok <==> is_token_program(token_program_id@),
        (r matches Err(e) ==> e == TokenError::IncorrectProgramId),
        (r matches Ok(ins) ==> {
            &&& ins.program_id@ == token_program_id@
            &&& ins.data@ == spec_pack_instruction(InstructionModel::SyncNative)
            &&& ins.accounts@.len() == 1
            &&& ins.accounts@[0]@ == meta(account_pubkey@, false, true)
        }),
{
    if let Err(e) = check_program_account(token_program_id) {
        return Err(e);
    }
    let data = (TokenInstruction::SyncNative).pack();
    let mut accounts: Vec<AccountMeta> = Vec::new();
    accounts.push(AccountMeta::new(account_pubkey.clone(), false));
    Ok(Instruction { program_id: token_program_id.clone(), accounts, data })
}

/// Builds a `GetAccountDataSize` instruction on the given account.
pub fn get_account_data_size(token_program_id: &Pubkey, account_pubkey: &Pubkey) -> (r: Result<
    Instruction,
    TokenError,
>)
    requires
        token_program_id.wf(),
        account_pubkey.wf(),
    ensures
        r is Ok <==> is_token_program(token_program_id@),
        (r matches Err(e) ==> e == TokenError::IncorrectProgramId),
        (r matches Ok(ins) ==> {
            &&& ins.program_id@ == token_program_id@
            &&& ins.data@ == spec_pack_instruction(InstructionModel::GetAccountDataSize)
            &&& ins.accounts@.len() == 1
            &&& ins.accounts@[0]@ == meta(account_pubkey@, false, false)
        }),
{
    if let Err(e) = check_program_account(token_program_id) {
        return Err(e);
    }
    let data = (TokenInstruction::GetAccountDataSize).pack();
    let mut accounts: Vec<AccountMeta> = Vec::new();
    accounts.push(AccountMeta::new_readonly(account_pubkey.clone(), false));
    Ok(Instruction { program_id: token_program_id.clone(), accounts, data })
}

/// Builds an `InitializeImmutableOwner` instruction on the given account.
pub fn initialize_immutable_owner(token_program_id: &Pubkey, account_pubkey: &Pubkey) -> (r: Result<
    Instruction,
    TokenError,
>)
    requires
        token_program_id.wf(),
        account_pubkey.wf(),
    ensures
        r is Ok <==> is_token_program(token_program_id@),
        (r matches Err(e) ==> e == TokenError::IncorrectProgramId),
        (r matches Ok(ins) ==> {
            &&& ins.program_id@ == token_program_id@
            &&& ins.data@ == spec_pack_instruction(InstructionModel::InitializeImmutableOwner)
            &&& ins.accounts@.len() == 1
            &&& ins.accounts@[0]@ == meta(account_pubkey@, false, true)
        }),
{
    if let Err(e) = check_program_account(token_program_id) {
        return Err(e);
    }
    let data = (TokenInstruction::InitializeImmutableOwner).pack();
    let mut accounts: Vec<AccountMeta> = Vec::new();
    accounts.push(AccountMeta::new(account_pubkey.clone(), false));
    Ok(Instruction { program_id: token_program_id.clone(), accounts, data })
}

/// Builds an `AmountToUiAmount` instruction against the given mint.
pub fn amount_to_ui_amount(token_program_id: &Pubkey, mint_pubkey: &Pubkey, amount: u64) -> (r:
    Result<Instruction, TokenError>)
    requires
        token_program_id.wf(),
        mint_pubkey.wf(),
    ensures
        r is Ok <==> is_token_program(token_program_id@),
        (r matches Err(e) ==> e == TokenError::IncorrectProgramId),
        (r matches Ok(ins) ==> {
            &&& ins.program_id@ == token_program_id@
            &&& ins.data@ == spec_pack_instruction(InstructionModel::AmountToUiAmount { amount })
            &&& ins.accounts@.len() == 1
            &&& ins.accounts@[0]@ == meta(mint_pubkey@, false, false)
        }),
{
    if let Err(e) = check_program_account(token_program_id) {
        return Err(e);
    }
    let data = (TokenInstruction::AmountToUiAmount { amount }).pack();
    let mut accounts: Vec<AccountMeta> = Vec::new();
    accounts.push(AccountMeta::new_readonly(mint_pubkey.clone(), false));
    Ok(Instruction { program_id: token_program_id.clone(), accounts, data })
}

/// Builds a `UiAmountToAmount` instruction against the given mint.
pub fn ui_amount_to_amount(token_program_id: &Pubkey, mint_pubkey: &Pubkey, ui_amount: &str) -> (r:
    Result<Instruction, TokenError>)
    requires
        token_program_id.wf(),
        mint_pubkey.wf(),
    ensures
        r is Ok <==> is_token_program(token_program_id@),
        (r matches Err(e) ==> e == TokenError::IncorrectProgramId),
        (r matches Ok(ins) ==> {
            &&& ins.program_id@ == token_program_id@
            &&& ins.data@ == spec_pack_instruction(
                InstructionModel::UiAmountToAmount { ui_amount: ui_amount@ },
            )
            &&& ins.accounts@.len() == 1
            &&& ins.accounts@[0]@ == meta(mint_pubkey@, false, false)
        }),
{
    if let Err(e) = check_program_account(token_program_id) {
        return Err(e);
    }
    let data = (TokenInstruction::UiAmountToAmount { ui_amount: ui_amount.to_owned() }).pack();
    let mut accounts: Vec<AccountMeta> = Vec::new();
    accounts.push(AccountMeta::new_readonly(mint_pubkey.clone(), false));
    Ok(Instruction { program_id: token_program_id.clone(), accounts, data })
}

} // verus!
