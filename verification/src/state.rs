//! The persisted record layouts: Mint (82 bytes), Account (165 bytes) and
//! Multisig (355 bytes), each read and written at fixed byte offsets.

use vstd::prelude::*;
use vstd::bytes::{spec_u64_from_le_bytes, spec_u64_to_le_bytes, u64_to_le_bytes};
use vstd::bytes::lemma_auto_spec_u64_to_from_le_bytes;

use crate::error::TokenError;
use crate::option_codec::{
    lemma_opt_key_round_trip, lemma_opt_u64_round_trip, lemma_unpack_opt_key_window,
    lemma_unpack_opt_u64_window, opt_key_view, opt_key_wf, pack_opt_key_into, pack_opt_u64_into,
    spec_pack_opt_key, spec_pack_opt_u64, spec_unpack_opt_key, spec_unpack_opt_u64,
    unpack_opt_key_at, unpack_opt_u64_at,
};
use crate::pubkey::Pubkey;
use crate::wire::{push_bytes, read_byte_at, read_key_at, read_u64_at, zero_bytes};

verus! {

/// Byte length of a packed `Mint` record.
pub const MINT_LEN: usize = 82;

/// Byte length of a packed `Account` record.
pub const ACCOUNT_LEN: usize = 165;

/// Byte length of a packed `Multisig` record.
pub const MULTISIG_LEN: usize = 355;

/// The byte that stands for an initialization flag.
pub open spec fn bool_byte(v: bool) -> u8 {
    if v {
        1u8
    } else {
        0u8
    }
}

/// The flag a byte stands for; anything but 0 or 1 is rejected.
pub open spec fn spec_bool_from(x: u8) -> Result<bool, TokenError> {
    if x == 0 {
        Ok(false)
    } else if x == 1 {
        Ok(true)
    } else {
        Err(TokenError::InvalidBoolean)
    }
}

/// A token account's lifecycle state.
#[derive(Clone, Copy, Debug, PartialEq, Eq, Structural)]
pub enum AccountState {
    /// The account is not yet initialized.
    Uninitialized,
    /// The account is initialized; the owner or delegate may operate on it.
    Initialized,
    /// The account was frozen by the mint's freeze authority; neither the
    /// owner nor the delegate may operate on it.
    Frozen,
}

/// The byte that stands for each account state on the wire.
pub open spec fn account_state_byte(s: AccountState) -> u8 {
    match s {
        AccountState::Uninitialized => 0,
        AccountState::Initialized => 1,
        AccountState::Frozen => 2,
    }
}

/// The account state a byte stands for; bytes outside the closed set are
/// rejected.
pub open spec fn spec_account_state_from(x: u8) -> Result<AccountState, TokenError> {
    if x == 0 {
        Ok(AccountState::Uninitialized)
    } else if x == 1 {
        Ok(AccountState::Initialized)
    } else if x == 2 {
        Ok(AccountState::Frozen)
    } else {
        Err(TokenError::UnknownDiscriminant)
    }
}

impl AccountState {
    /// The wire byte for this state.
    pub fn into(&self) -> (r: u8)
        ensures
            r == account_state_byte(*self),
    {
        match self {
            AccountState::Uninitialized => 0,
            AccountState::Initialized => 1,
            AccountState::Frozen => 2,
        }
    }

    /// The state encoded by `index`.
    pub fn from(index: u8) -> (r: Result<AccountState, TokenError>)
        ensures
            r == spec_account_state_from(index),
    {
        match index {
            0 => Ok(AccountState::Uninitialized),
            1 => Ok(AccountState::Initialized),
            2 => Ok(AccountState::Frozen),
            _ => Err(TokenError::UnknownDiscriminant),
        }
    }
}

/// A mint: the issuing authority and bookkeeping for one token kind.
#[derive(Debug, PartialEq, Eq)]
pub struct Mint {
    /// Optional authority used to mint new tokens.
    pub mint_authority: Option<Pubkey>,
    /// Total supply of tokens.
    pub supply: u64,
    /// Number of base-10 digits to the right of the decimal place.
    pub decimals: u8,
    /// Whether the mint has been initialized.
    pub is_initialized: bool,
    /// Optional authority to freeze token accounts.
    pub freeze_authority: Option<Pubkey>,
}

/// The mathematical shape of a mint record.
pub struct MintModel {
    /// Optional authority used to mint new tokens.
    pub mint_authority: Option<Seq<u8>>,
    /// Total supply of tokens.
    pub supply: u64,
    /// Number of base-10 digits to the right of the decimal place.
    pub decimals: u8,
    /// Whether the mint has been initialized.
    pub is_initialized: bool,
    /// Optional authority to freeze token accounts.
    pub freeze_authority: Option<Seq<u8>>,
}

impl View for Mint {
    type V = MintModel;

    open spec fn view(&self) -> MintModel {
        MintModel {
            mint_authority: opt_key_view(self.mint_authority),
            supply: self.supply,
            decimals: self.decimals,
            is_initialized: self.is_initialized,
            freeze_authority: opt_key_view(self.freeze_authority),
        }
    }
}

/// Every key carried by a mint model is 32 bytes.
pub open spec fn mint_model_wf(m: MintModel) -> bool {
    &&& (m.mint_authority matches Some(k) ==> k.len() == 32)
    &&& (m.freeze_authority matches Some(k) ==> k.len() == 32)
}

/// The 82-byte encoding of a mint: optional mint authority (36), supply
/// (8, little-endian), decimals (1), initialization flag (1), optional
/// freeze authority (36).
pub open spec fn spec_pack_mint(m: MintModel) -> Seq<u8> {
    spec_pack_opt_key(m.mint_authority) + spec_u64_to_le_bytes(m.supply) + seq![
        m.decimals,
        bool_byte(m.is_initialized),
    ] + spec_pack_opt_key(m.freeze_authority)
}

/// Decoding a mint record: the buffer must hold at least 82 bytes, and the
/// fields are validated in layout order.
pub open spec fn spec_unpack_mint(b: Seq<u8>) -> Result<MintModel, TokenError> {
    if b.len() < 82 {
        Err(TokenError::MalformedBuffer)
    } else {
        match spec_unpack_opt_key(b.subrange(0, 36)) {
            Err(e) => Err(e),
            Ok(mint_authority) => {
                let supply = spec_u64_from_le_bytes(b.subrange(36, 44));
                let decimals = b[44];
                match spec_bool_from(b[45]) {
                    Err(e) => Err(e),
                    Ok(is_initialized) => {
                        match spec_unpack_opt_key(b.subrange(46, 82)) {
                            Err(e) => Err(e),
                            Ok(freeze_authority) => {
                                Ok(MintModel {
                                    mint_authority,
                                    supply,
                                    decimals,
                                    is_initialized,
                                    freeze_authority,
                                })
                            },
                        }
                    },
                }
            },
        }
    }
}

/// The model of a mint unpack result.
pub open spec fn mint_result_view(r: Result<Mint, TokenError>) -> Result<MintModel, TokenError> {
    match r {
        Ok(x) => Ok(x@),
        Err(e) => Err(e),
    }
}

impl Mint {
    /// Every key this mint holds is 32 bytes.
    pub open spec fn wf(&self) -> bool {
        &&& opt_key_wf(self.mint_authority)
        &&& opt_key_wf(self.freeze_authority)
    }

    /// Whether the mint has been initialized.
    pub fn is_initialized(&self) -> (r: bool)
        ensures
            r == self.is_initialized,
    {
        self.is_initialized
    }

    /// Decodes a mint record from the front of `src`.
    pub fn unpack_from_slice(src: &[u8]) -> (r: Result<Mint, TokenError>)
        ensures
            mint_result_view(r) == spec_unpack_mint(src@),
            (r matches Ok(x) ==> x.wf()),
    {
        let len = src.len();
        if len < MINT_LEN {
            return Err(TokenError::MalformedBuffer);
        }
        proof {
            assert(src@.subrange(0, len as int) =~= src@);
            lemma_unpack_opt_key_window(src@);
            assert(src@.subrange(0, 36) =~= src@.subrange(0, len as int).subrange(0, 36));
        }
        let mint_authority = match unpack_opt_key_at(src, 0) {
            Ok(k) => k,
            Err(e) => {
                return Err(e);
            },
        };
        let supply = read_u64_at(src, 36);
        let decimals = read_byte_at(src, 44);
        let flag = read_byte_at(src, 45);
        let is_initialized = if flag == 0 {
            false
        } else if flag == 1 {
            true
        } else {
            return Err(TokenError::InvalidBoolean);
        };
        proof {
            lemma_unpack_opt_key_window(src@.subrange(46, len as int));
            assert(src@.subrange(46, 82) =~= src@.subrange(46, len as int).subrange(0, 36));
        }
        let freeze_authority = match unpack_opt_key_at(src, 46) {
            Ok(k) => k,
            Err(e) => {
                return Err(e);
            },
        };
        Ok(Mint { mint_authority, supply, decimals, is_initialized, freeze_authority })
    }

    /// Encodes this mint as a fresh 82-byte buffer.
    pub fn pack_to_vec(&self) -> (r: Vec<u8>)
        requires
            self.wf(),
        ensures
            r@ == spec_pack_mint(self@),
            r@.len() == MINT_LEN,
    {
        let mut buf: Vec<u8> = Vec::new();
        pack_opt_key_into(&mut buf, &self.mint_authority);
        let bytes = u64_to_le_bytes(self.supply);
        push_bytes(&mut buf, bytes.as_slice());
        buf.push(self.decimals);
        buf.push(if self.is_initialized {
            1u8
        } else {
            0u8
        });
        pack_opt_key_into(&mut buf, &self.freeze_authority);
        proof {
            assert(buf@ =~= spec_pack_mint(self@));
        }
        buf
    }

    /// Encodes this mint into a caller-owned 82-byte buffer, overwriting
    /// its whole contents.
    pub fn pack_into_slice(&self, dst: &mut Vec<u8>)
        requires
            self.wf(),
            old(dst)@.len() == MINT_LEN,
        ensures
            final(dst)@ == spec_pack_mint(self@),
    {
        let v = self.pack_to_vec();
        copy_into(dst, &v);
    }
}

/// Overwrites `dst` with the bytes of `src`; the two must have one length.
fn copy_into(dst: &mut Vec<u8>, src: &Vec<u8>)
    requires
        old(dst)@.len() == src@.len(),
    ensures
        final(dst)@ == src@,
{
    let mut i: usize = 0;
    while i < src.len()
        invariant
            i <= src@.len(),
            dst@.len() == src@.len(),
            forall|j: int| 0 <= j < i ==> dst@[j] == src@[j],
        decreases src@.len() - i,
    {
        let b = src[i];
        dst.set(i, b);
        i += 1;
    }
    proof {
        assert(dst@ =~= src@);
    }
}

/// Law: decoding an encoded mint gives the mint back, for every
/// well-formed value.
pub proof fn lemma_mint_round_trip(m: MintModel)
    requires
        mint_model_wf(m),
    ensures
        spec_unpack_mint(spec_pack_mint(m)) == Ok::<MintModel, TokenError>(m),
{
    let b = spec_pack_mint(m);
    lemma_auto_spec_u64_to_from_le_bytes();
    assert(b.len() == 82);
    assert(b.subrange(0, 36) =~= spec_pack_opt_key(m.mint_authority));
    lemma_opt_key_round_trip(m.mint_authority);
    assert(b.subrange(36, 44) =~= spec_u64_to_le_bytes(m.supply));
    assert(b[44] == m.decimals);
    assert(b[45] == bool_byte(m.is_initialized));
    assert(b.subrange(46, 82) =~= spec_pack_opt_key(m.freeze_authority));
    lemma_opt_key_round_trip(m.freeze_authority);
}

/// Law: re-encoding a decoded mint reproduces the buffer byte for byte,
/// for every exactly-sized buffer whose absent optional fields carry a
/// zero-filled payload. (The decoder ignores the payload of an absent
/// field, so a buffer with other bytes there decodes to the same value
/// but re-encodes with zeros.)
pub proof fn lemma_mint_reencode(b: Seq<u8>)
    requires
        b.len() == 82,
        spec_unpack_mint(b) is Ok,
        (spec_unpack_mint(b)->Ok_0.mint_authority is None ==> b.subrange(4, 36) == zero_bytes(32)),
        (spec_unpack_mint(b)->Ok_0.freeze_authority is None ==> b.subrange(50, 82) == zero_bytes(
            32,
        )),
    ensures
        spec_pack_mint(spec_unpack_mint(b)->Ok_0) == b,
{
    let m = spec_unpack_mint(b)->Ok_0;
    lemma_auto_spec_u64_to_from_le_bytes();
    assert(b.subrange(0, 36).subrange(4, 36) =~= b.subrange(4, 36));
    lemma_opt_key_reencode(b.subrange(0, 36), m.mint_authority);
    assert(b.subrange(46, 82).subrange(4, 36) =~= b.subrange(50, 82));
    lemma_opt_key_reencode(b.subrange(46, 82), m.freeze_authority);
    assert(spec_u64_to_le_bytes(m.supply) == b.subrange(36, 44));
    assert(spec_pack_mint(m) =~= b);
}

/// Re-encoding a decoded optional key reproduces its 36-byte field, when
/// an absent field's payload is zero-filled.
proof fn lemma_opt_key_reencode(f: Seq<u8>, k: Option<Seq<u8>>)
    requires
        f.len() == 36,
        spec_unpack_opt_key(f) == Ok::<Option<Seq<u8>>, TokenError>(k),
        (k is None ==> f.subrange(4, 36) == zero_bytes(32)),
    ensures
        spec_pack_opt_key(k) == f,
{
    assert(spec_pack_opt_key(k) =~= f);
}

/// Re-encoding a decoded optional amount reproduces its 12-byte field,
/// when an absent field's payload is zero-filled.
proof fn lemma_opt_u64_reencode(f: Seq<u8>, v: Option<u64>)
    requires
        f.len() == 12,
        spec_unpack_opt_u64(f) == Ok::<Option<u64>, TokenError>(v),
        (v is None ==> f.subrange(4, 12) == zero_bytes(8)),
    ensures
        spec_pack_opt_u64(v) == f,
{
    lemma_auto_spec_u64_to_from_le_bytes();
    assert(spec_pack_opt_u64(v) =~= f);
}

/// A token account: a holder's balance of one mint.
#[derive(Debug, PartialEq, Eq)]
pub struct Account {
    /// The mint this account is associated with.
    pub mint: Pubkey,
    /// The owner of this account.
    pub owner: Pubkey,
    /// The amount of tokens this account holds.
    pub amount: u64,
    /// Optional authority delegated to transfer tokens.
    pub delegate: Option<Pubkey>,
    /// The account's lifecycle state.
    pub state: AccountState,
    /// When present, the account wraps native SOL and this is the rent
    /// reserve in lamports.
    pub is_native: Option<u64>,
    /// The amount delegated to `delegate`.
    pub delegated_amount: u64,
    /// Optional authority to close the account.
    pub close_authority: Option<Pubkey>,
}

/// The mathematical shape of a token account record.
pub struct AccountModel {
    /// The mint this account is associated with.
    pub mint: Seq<u8>,
    /// The owner of this account.
    pub owner: Seq<u8>,
    /// The amount of tokens this account holds.
    pub amount: u64,
    /// Optional authority delegated to transfer tokens.
    pub delegate: Option<Seq<u8>>,
    /// The account's lifecycle state.
    pub state: AccountState,
    /// The rent reserve, present exactly for native accounts.
    pub is_native: Option<u64>,
    /// The amount delegated to the delegate.
    pub delegated_amount: u64,
    /// Optional authority to close the account.
    pub close_authority: Option<Seq<u8>>,
}

impl View for Account {
    type V = AccountModel;

    open spec fn view(&self) -> AccountModel {
        AccountModel {
            mint: self.mint@,
            owner: self.owner@,
            amount: self.amount,
            delegate: opt_key_view(self.delegate),
            state: self.state,
            is_native: self.is_native,
            delegated_amount: self.delegated_amount,
            close_authority: opt_key_view(self.close_authority),
        }
    }
}

/// Every key carried by an account model is 32 bytes.
pub open spec fn account_model_wf(a: AccountModel) -> bool {
    &&& a.mint.len() == 32
    &&& a.owner.len() == 32
    &&& (a.delegate matches Some(k) ==> k.len() == 32)
    &&& (a.close_authority matches Some(k) ==> k.len() == 32)
}

/// The 165-byte encoding of a token account: mint (32), owner (32), amount
/// (8), optional delegate (36), state (1), optional native amount (12),
/// delegated amount (8), optional close authority (36).
pub open spec fn spec_pack_account(a: AccountModel) -> Seq<u8> {
    a.mint + a.owner + spec_u64_to_le_bytes(a.amount) + spec_pack_opt_key(a.delegate) + seq![
        account_state_byte(a.state),
    ] + spec_pack_opt_u64(a.is_native) + spec_u64_to_le_bytes(a.delegated_amount)
        + spec_pack_opt_key(a.close_authority)
}

/// Decoding a token account record: the buffer must hold at least 165
/// bytes, and the fields are validated in layout order.
pub open spec fn spec_unpack_account(b: Seq<u8>) -> Result<AccountModel, TokenError> {
    if b.len() < 165 {
        Err(TokenError::MalformedBuffer)
    } else {
        let mint = b.subrange(0, 32);
        let owner = b.subrange(32, 64);
        let amount = spec_u64_from_le_bytes(b.subrange(64, 72));
        match spec_unpack_opt_key(b.subrange(72, 108)) {
            Err(e) => Err(e),
            Ok(delegate) => {
                match spec_account_state_from(b[108]) {
                    Err(e) => Err(e),
                    Ok(state) => {
                        match spec_unpack_opt_u64(b.subrange(109, 121)) {
                            Err(e) => Err(e),
                            Ok(is_native) => {
                                let delegated_amount = spec_u64_from_le_bytes(
                                    b.subrange(121, 129),
                                );
                                match spec_unpack_opt_key(b.subrange(129, 165)) {
                                    Err(e) => Err(e),
                                    Ok(close_authority) => {
                                        Ok(AccountModel {
                                            mint,
                                            owner,
                                            amount,
                                            delegate,
                                            state,
                                            is_native,
                                            delegated_amount,
                                            close_authority,
                                        })
                                    },
                                }
                            },
                        }
                    },
                }
            },
        }
    }
}

/// The model of an account unpack result.
pub open spec fn account_result_view(r: Result<Account, TokenError>) -> Result<
    AccountModel,
    TokenError,
> {
    match r {
        Ok(x) => Ok(x@),
        Err(e) => Err(e),
    }
}

impl Account {
    /// Every key this account holds is 32 bytes.
    pub open spec fn wf(&self) -> bool {
        &&& self.mint.wf()
        &&& self.owner.wf()
        &&& opt_key_wf(self.delegate)
        &&& opt_key_wf(self.close_authority)
    }

    /// Whether the account is frozen.
    pub fn is_frozen(&self) -> (r: bool)
        ensures
            r == (self.state is Frozen),
    {
        self.state == AccountState::Frozen
    }

    /// Whether the account wraps native SOL.
    pub fn is_native(&self) -> (r: bool)
        ensures
            r == (self.is_native is Some),
    {
        self.is_native.is_some()
    }

    /// Whether the account has been initialized.
    pub fn is_initialized(&self) -> (r: bool)
        ensures
            r == !(self.state is Uninitialized),
    {
        self.state != AccountState::Uninitialized
    }

    /// Decodes a token account record from the front of `src`.
    pub fn unpack_from_slice(src: &[u8]) -> (r: Result<Account, TokenError>)
        ensures
            account_result_view(r) == spec_unpack_account(src@),
            (r matches Ok(x) ==> x.wf()),
    {
        let len = src.len();
        if len < ACCOUNT_LEN {
            return Err(TokenError::MalformedBuffer);
        }
        let mint = read_key_at(src, 0);
        let owner = read_key_at(src, 32);
        let amount = read_u64_at(src, 64);
        proof {
            lemma_unpack_opt_key_window(src@.subrange(72, len as int));
            assert(src@.subrange(72, 108) =~= src@.subrange(72, len as int).subrange(0, 36));
        }
        let delegate = match unpack_opt_key_at(src, 72) {
            Ok(k) => k,
            Err(e) => {
                return Err(e);
            },
        };
        let state = match AccountState::from(read_byte_at(src, 108)) {
            Ok(s) => s,
            Err(e) => {
                return Err(e);
            },
        };
        proof {
            lemma_unpack_opt_u64_window(src@.subrange(109, len as int));
            assert(src@.subrange(109, 121) =~= src@.subrange(109, len as int).subrange(0, 12));
        }
        let is_native = match unpack_opt_u64_at(src, 109) {
            Ok(v) => v,
            Err(e) => {
                return Err(e);
            },
        };
        let delegated_amount = read_u64_at(src, 121);
        proof {
            lemma_unpack_opt_key_window(src@.subrange(129, len as int));
            assert(src@.subrange(129, 165) =~= src@.subrange(129, len as int).subrange(0, 36));
        }
        let close_authority = match unpack_opt_key_at(src, 129) {
            Ok(k) => k,
            Err(e) => {
                return Err(e);
            },
        };
        Ok(Account {
            mint,
            owner,
            amount,
            delegate,
            state,
            is_native,
            delegated_amount,
            close_authority,
        })
    }

    /// Encodes this account as a fresh 165-byte buffer.
    pub fn pack_to_vec(&self) -> (r: Vec<u8>)
        requires
            self.wf(),
        ensures
            r@ == spec_pack_account(self@),
            r@.len() == ACCOUNT_LEN,
    {
        let mut buf: Vec<u8> = Vec::new();
        push_bytes(&mut buf, self.mint.as_bytes().as_slice());
        push_bytes(&mut buf, self.owner.as_bytes().as_slice());
        let amount_bytes = u64_to_le_bytes(self.amount);
        push_bytes(&mut buf, amount_bytes.as_slice());
        pack_opt_key_into(&mut buf, &self.delegate);
        buf.push(AccountState::into(&self.state));
        pack_opt_u64_into(&mut buf, &self.is_native);
        let delegated_bytes = u64_to_le_bytes(self.delegated_amount);
        push_bytes(&mut buf, delegated_bytes.as_slice());
        pack_opt_key_into(&mut buf, &self.close_authority);
        proof {
            lemma_auto_spec_u64_to_from_le_bytes();
            assert(buf@ =~= spec_pack_account(self@));
        }
        buf
    }

    /// Encodes this account into a caller-owned 165-byte buffer,
    /// overwriting its whole contents.
    pub fn pack_into_slice(&self, dst: &mut Vec<u8>)
        requires
            self.wf(),
            old(dst)@.len() == ACCOUNT_LEN,
        ensures
            final(dst)@ == spec_pack_account(self@),
    {
        let v = self.pack_to_vec();
        copy_into(dst, &v);
    }
}

/// Law: decoding an encoded account gives the account back, for every
/// well-formed value.
pub proof fn lemma_account_round_trip(a: AccountModel)
    requires
        account_model_wf(a),
    ensures
        spec_unpack_account(spec_pack_account(a)) == Ok::<AccountModel, TokenError>(a),
{
    let b = spec_pack_account(a);
    lemma_auto_spec_u64_to_from_le_bytes();
    assert(b.len() == 165);
    assert(b.subrange(0, 32) =~= a.mint);
    assert(b.subrange(32, 64) =~= a.owner);
    assert(b.subrange(64, 72) =~= spec_u64_to_le_bytes(a.amount));
    assert(b.subrange(72, 108) =~= spec_pack_opt_key(a.delegate));
    lemma_opt_key_round_trip(a.delegate);
    assert(b[108] == account_state_byte(a.state));
    assert(spec_account_state_from(account_state_byte(a.state)) == Ok::<AccountState, TokenError>(
        a.state,
    ));
    assert(b.subrange(109, 121) =~= spec_pack_opt_u64(a.is_native));
    lemma_opt_u64_round_trip(a.is_native);
    assert(b.subrange(121, 129) =~= spec_u64_to_le_bytes(a.delegated_amount));
    assert(b.subrange(129, 165) =~= spec_pack_opt_key(a.close_authority));
    lemma_opt_key_round_trip(a.close_authority);
}

/// Law: re-encoding a decoded account reproduces the buffer byte for
/// byte, for every exactly-sized buffer whose absent optional fields carry
/// a zero-filled payload. (The decoder ignores the payload of an absent
/// field, so a buffer with other bytes there decodes to the same value but
/// re-encodes with zeros.)
pub proof fn lemma_account_reencode(b: Seq<u8>)
    requires
        b.len() == 165,
        spec_unpack_account(b) is Ok,
        (spec_unpack_account(b)->Ok_0.delegate is None ==> b.subrange(76, 108) == zero_bytes(32)),
        (spec_unpack_account(b)->Ok_0.is_native is None ==> b.subrange(113, 121) == zero_bytes(8)),
        (spec_unpack_account(b)->Ok_0.close_authority is None ==> b.subrange(133, 165)
            == zero_bytes(32)),
    ensures
        spec_pack_account(spec_unpack_account(b)->Ok_0) == b,
{
    let a = spec_unpack_account(b)->Ok_0;
    lemma_auto_spec_u64_to_from_le_bytes();
    assert(b.subrange(72, 108).subrange(4, 36) =~= b.subrange(76, 108));
    lemma_opt_key_reencode(b.subrange(72, 108), a.delegate);
    assert(b.subrange(109, 121).subrange(4, 12) =~= b.subrange(113, 121));
    lemma_opt_u64_reencode(b.subrange(109, 121), a.is_native);
    assert(b.subrange(129, 165).subrange(4, 36) =~= b.subrange(133, 165));
    lemma_opt_key_reencode(b.subrange(129, 165), a.close_authority);
    assert(account_state_byte(a.state) == b[108]);
    assert(spec_pack_account(a) =~= b);
}

/// The concatenation of a sequence of key byte runs.
pub open spec fn keys_cat(keys: Seq<Seq<u8>>) -> Seq<u8>
    decreases keys.len(),
{
    if keys.len() == 0 {
        Seq::empty()
    } else {
        keys[0] + keys_cat(keys.drop_first())
    }
}

/// The concatenation of `n` 32-byte keys holds `32 * n` bytes.
pub proof fn lemma_keys_cat_len(keys: Seq<Seq<u8>>)
    requires
        forall|i: int| 0 <= i < keys.len() ==> #[trigger] keys[i].len() == 32,
    ensures
        keys_cat(keys).len() == 32 * keys.len(),
    decreases keys.len(),
{
    if keys.len() > 0 {
        assert(forall|i: int|
            0 <= i < keys.drop_first().len() ==> #[trigger] keys.drop_first()[i].len() == 32);
        lemma_keys_cat_len(keys.drop_first());
    }
}

/// Each key stands at its own 32-byte slot inside the concatenation.
pub proof fn lemma_keys_cat_index(keys: Seq<Seq<u8>>, j: int)
    requires
        forall|i: int| 0 <= i < keys.len() ==> #[trigger] keys[i].len() == 32,
        0 <= j < keys.len(),
    ensures
        keys_cat(keys).subrange(32 * j, 32 * j + 32) == keys[j],
    decreases j,
{
    lemma_keys_cat_len(keys);
    if j == 0 {
        assert(keys_cat(keys).subrange(0, 32) =~= keys[0]);
    } else {
        let rest = keys.drop_first();
        assert(forall|i: int| 0 <= i < rest.len() ==> #[trigger] rest[i].len() == 32);
        lemma_keys_cat_len(rest);
        lemma_keys_cat_index(rest, j - 1);
        assert(keys_cat(keys).subrange(32 * j, 32 * j + 32) =~= keys_cat(rest).subrange(
            32 * (j - 1),
            32 * (j - 1) + 32,
        ));
        assert(rest[j - 1] == keys[j]);
    }
}

/// Appending one key extends the concatenation by that key's bytes.
pub proof fn lemma_keys_cat_push(keys: Seq<Seq<u8>>, k: Seq<u8>)
    ensures
        keys_cat(keys.push(k)) == keys_cat(keys) + k,
    decreases keys.len(),
{
    if keys.len() == 0 {
        assert(keys.push(k)[0] == k);
        assert(keys.push(k).drop_first() =~= Seq::<Seq<u8>>::empty());
        assert(keys_cat(Seq::<Seq<u8>>::empty()) =~= Seq::<u8>::empty());
        assert(keys_cat(keys.push(k)) == keys.push(k)[0] + keys_cat(keys.push(k).drop_first()));
        assert(keys =~= Seq::<Seq<u8>>::empty());
        assert(keys_cat(keys.push(k)) =~= keys_cat(keys) + k);
    } else {
        assert(keys.push(k)[0] == keys[0]);
        assert(keys.push(k).drop_first() =~= keys.drop_first().push(k));
        lemma_keys_cat_push(keys.drop_first(), k);
        assert(keys_cat(keys.push(k)) == keys.push(k)[0] + keys_cat(keys.push(k).drop_first()));
        assert(keys_cat(keys.push(k).drop_first()) == keys_cat(keys.drop_first().push(k)));
        assert(keys_cat(keys.push(k)) =~= keys_cat(keys) + k);
    }
}

/// A multisignature account: up to 11 signer keys, of which `m` must sign.
#[derive(Debug, PartialEq, Eq)]
pub struct Multisig {
    /// Number of signers required.
    pub m: u8,
    /// Number of valid signers.
    pub n: u8,
    /// Whether the account has been initialized.
    pub is_initialized: bool,
    /// The signer keys; all 11 slots are stored, and the first `n` are
    /// meaningful.
    pub signers: Vec<Pubkey>,
}

/// The mathematical shape of a multisignature record.
pub struct MultisigModel {
    /// Number of signers required.
    pub m: u8,
    /// Number of valid signers.
    pub n: u8,
    /// Whether the account has been initialized.
    pub is_initialized: bool,
    /// The 11 stored signer keys.
    pub signers: Seq<Seq<u8>>,
}

impl View for Multisig {
    type V = MultisigModel;

    open spec fn view(&self) -> MultisigModel {
        MultisigModel {
            m: self.m,
            n: self.n,
            is_initialized: self.is_initialized,
            signers: self.signers@.map_values(|p: Pubkey| p@),
        }
    }
}

/// A multisig model is well formed when it stores all 11 key slots of 32
/// bytes each and its counts satisfy `1 <= m <= n <= 11`.
pub open spec fn multisig_model_wf(m: MultisigModel) -> bool {
    &&& m.signers.len() == 11
    &&& (forall|i: int| 0 <= i < m.signers.len() ==> #[trigger] m.signers[i].len() == 32)
    &&& 1 <= m.m
    &&& m.m <= m.n
    &&& m.n <= 11
}

/// The 355-byte encoding of a multisig: `m` (1), `n` (1), initialization
/// flag (1), then the 11 signer key slots of 32 bytes each.
pub open spec fn spec_pack_multisig(m: MultisigModel) -> Seq<u8> {
    seq![m.m, m.n, bool_byte(m.is_initialized)] + keys_cat(m.signers)
}

/// Decoding a multisig record: the buffer must hold at least 355 bytes,
/// the counts must satisfy `1 <= m <= n <= 11`, and the flag byte must be
/// 0 or 1.
pub open spec fn spec_unpack_multisig(b: Seq<u8>) -> Result<MultisigModel, TokenError> {
    if b.len() < 355 {
        Err(TokenError::MalformedBuffer)
    } else if !(1 <= b[0] && b[0] <= b[1] && b[1] <= 11) {
        Err(TokenError::ThresholdViolation)
    } else {
        match spec_bool_from(b[2]) {
            Err(e) => Err(e),
            Ok(is_initialized) => {
                Ok(MultisigModel {
                    m: b[0],
                    n: b[1],
                    is_initialized,
                    signers: Seq::new(11, |j: int| b.subrange(3 + 32 * j, 35 + 32 * j)),
                })
            },
        }
    }
}

/// The model of a multisig unpack result.
pub open spec fn multisig_result_view(r: Result<Multisig, TokenError>) -> Result<
    MultisigModel,
    TokenError,
> {
    match r {
        Ok(x) => Ok(x@),
        Err(e) => Err(e),
    }
}

impl Multisig {
    /// All 11 key slots are stored, each 32 bytes, and the counts satisfy
    /// `1 <= m <= n <= 11`.
    pub open spec fn wf(&self) -> bool {
        multisig_model_wf(self@)
    }

    /// Whether the account has been initialized.
    pub fn is_initialized(&self) -> (r: bool)
        ensures
            r == self.is_initialized,
    {
        self.is_initialized
    }

    /// Decodes a multisig record from the front of `src`.
    pub fn unpack_from_slice(src: &[u8]) -> (r: Result<Multisig, TokenError>)
        ensures
            multisig_result_view(r) == spec_unpack_multisig(src@),
            (r matches Ok(x) ==> x.wf()),
    {
        let len = src.len();
        if len < MULTISIG_LEN {
            return Err(TokenError::MalformedBuffer);
        }
        let m = read_byte_at(src, 0);
        let n = read_byte_at(src, 1);
        if !(1 <= m && m <= n && n <= 11) {
            return Err(TokenError::ThresholdViolation);
        }
        let flag = read_byte_at(src, 2);
        let is_initialized = if flag == 0 {
            false
        } else if flag == 1 {
            true
        } else {
            return Err(TokenError::InvalidBoolean);
        };
        let mut signers: Vec<Pubkey> = Vec::new();
        let mut i: usize = 0;
        while i < 11
            invariant
                i <= 11,
                len == src@.len(),
                len >= 355,
                signers@.len() == i,
                forall|j: int|
                    0 <= j < i ==> (#[trigger] signers@[j])@ == src@.subrange(
                        3 + 32 * j,
                        35 + 32 * j,
                    ),
            decreases 11 - i,
        {
            let key = read_key_at(src, 3 + 32 * i);
            signers.push(key);
            i += 1;
        }
        let result = Multisig { m, n, is_initialized, signers };
        proof {
            assert(result@.signers =~= Seq::new(
                11,
                |j: int| src@.subrange(3 + 32 * j, 35 + 32 * j),
            ));
        }
        Ok(result)
    }

    /// Encodes this multisig as a fresh 355-byte buffer.
    pub fn pack_to_vec(&self) -> (r: Vec<u8>)
        requires
            self.wf(),
        ensures
            r@ == spec_pack_multisig(self@),
            r@.len() == MULTISIG_LEN,
    {
        let mut buf: Vec<u8> = Vec::new();
        buf.push(self.m);
        buf.push(self.n);
        buf.push(if self.is_initialized {
            1u8
        } else {
            0u8
        });
        let ghost header = buf@;
        let ghost sv = self@.signers;
        let mut i: usize = 0;
        while i < self.signers.len()
            invariant
                i <= self.signers@.len(),
                sv == self@.signers,
                sv.len() == self.signers@.len(),
                forall|j: int| 0 <= j < sv.len() ==> #[trigger] sv[j] == self.signers@[j]@,
                buf@ == header + keys_cat(sv.subrange(0, i as int)),
            decreases self.signers@.len() - i,
        {
            push_bytes(&mut buf, self.signers[i].as_bytes().as_slice());
            proof {
                assert(sv.subrange(0, i + 1) =~= sv.subrange(0, i as int).push(sv[i as int]));
                lemma_keys_cat_push(sv.subrange(0, i as int), sv[i as int]);
                assert(buf@ =~= header + keys_cat(sv.subrange(0, i + 1)));
            }
            i += 1;
        }
        proof {
            assert(sv.subrange(0, sv.len() as int) =~= sv);
            assert(buf@ =~= spec_pack_multisig(self@));
            lemma_keys_cat_len(sv);
        }
        buf
    }

    /// Encodes this multisig into a caller-owned 355-byte buffer,
    /// overwriting its whole contents.
    pub fn pack_into_slice(&self, dst: &mut Vec<u8>)
        requires
            self.wf(),
            old(dst)@.len() == MULTISIG_LEN,
        ensures
            final(dst)@ == spec_pack_multisig(self@),
    {
        let v = self.pack_to_vec();
        copy_into(dst, &v);
    }
}

/// A concatenation equals any byte run that holds each key at its own
/// 32-byte slot.
proof fn lemma_keys_cat_of_slices(c: Seq<u8>, keys: Seq<Seq<u8>>)
    requires
        c.len() == 32 * keys.len(),
        forall|j: int| 0 <= j < keys.len() ==> #[trigger] keys[j] == c.subrange(
            32 * j,
            32 * j + 32,
        ),
    ensures
        keys_cat(keys) == c,
    decreases keys.len(),
{
    if keys.len() == 0 {
        assert(keys_cat(keys) =~= c);
    } else {
        let c2 = c.subrange(32, c.len() as int);
        let rest = keys.drop_first();
        assert forall|j: int| 0 <= j < rest.len() implies #[trigger] rest[j] == c2.subrange(
            32 * j,
            32 * j + 32,
        ) by {
            assert(rest[j] == keys[j + 1]);
            assert(c2.subrange(32 * j, 32 * j + 32) =~= c.subrange(
                32 * (j + 1),
                32 * (j + 1) + 32,
            ));
        }
        lemma_keys_cat_of_slices(c2, rest);
        assert(keys[0] == c.subrange(0, 32));
        assert(keys_cat(keys) =~= c);
    }
}

/// Law: re-encoding a decoded multisig reproduces the buffer byte for
/// byte, for every exactly-sized buffer. (A multisig record has no ignored
/// regions, so no zero-fill condition is needed.)
pub proof fn lemma_multisig_reencode(b: Seq<u8>)
    requires
        b.len() == 355,
        spec_unpack_multisig(b) is Ok,
    ensures
        spec_pack_multisig(spec_unpack_multisig(b)->Ok_0) == b,
{
    let m = spec_unpack_multisig(b)->Ok_0;
    let c = b.subrange(3, 355);
    assert forall|j: int| 0 <= j < m.signers.len() implies #[trigger] m.signers[j] == c.subrange(
        32 * j,
        32 * j + 32,
    ) by {
        assert(c.subrange(32 * j, 32 * j + 32) =~= b.subrange(3 + 32 * j, 35 + 32 * j));
    }
    lemma_keys_cat_of_slices(c, m.signers);
    assert(spec_pack_multisig(m) =~= b);
}

/// Law: decoding an encoded multisig gives the multisig back, for every
/// well-formed value.
pub proof fn lemma_multisig_round_trip(m: MultisigModel)
    requires
        multisig_model_wf(m),
    ensures
        spec_unpack_multisig(spec_pack_multisig(m)) == Ok::<MultisigModel, TokenError>(m),
{
    let b = spec_pack_multisig(m);
    lemma_keys_cat_len(m.signers);
    assert(b.len() == 355);
    assert(b[0] == m.m && b[1] == m.n && b[2] == bool_byte(m.is_initialized));
    assert forall|j: int| 0 <= j < 11 implies b.subrange(3 + 32 * j, 35 + 32 * j) == m.signers[j] by {
        lemma_keys_cat_index(m.signers, j);
        assert(b.subrange(3 + 32 * j, 35 + 32 * j) =~= keys_cat(m.signers).subrange(
            32 * j,
            32 * j + 32,
        ));
    }
    assert(Seq::new(11, |j: int| b.subrange(3 + 32 * j, 35 + 32 * j)) =~= m.signers);
}

} // verus!
