//! The optional-value codec: a 4-byte little-endian presence tag (0 or 1)
//! followed by a fixed-size payload, used for nullable 32-byte keys and
//! nullable 64-bit amounts. An absent value is written with a zero-filled
//! payload; on read the payload of an absent value is skipped, not
//! inspected.

use vstd::prelude::*;
use vstd::bytes::{spec_u64_from_le_bytes, spec_u64_to_le_bytes, u64_to_le_bytes};
use vstd::bytes::lemma_auto_spec_u64_to_from_le_bytes;

use crate::error::TokenError;
use crate::pubkey::Pubkey;
use crate::wire::{push_bytes, push_zeros, read_byte_at, read_key_at, read_u64_at, zero_bytes};

verus! {

/// Wire width of an optional 32-byte key: 4-byte tag plus payload.
pub const OPT_KEY_LEN: usize = 36;

/// Wire width of an optional 64-bit amount: 4-byte tag plus payload.
pub const OPT_U64_LEN: usize = 12;

/// The byte view of an optional key value.
pub open spec fn opt_key_view(k: Option<Pubkey>) -> Option<Seq<u8>> {
    match k {
        Some(p) => Some(p@),
        None => None,
    }
}

/// Every key held by an optional value is 32 bytes.
pub open spec fn opt_key_wf(k: Option<Pubkey>) -> bool {
    match k {
        Some(p) => p.wf(),
        None => true,
    }
}

/// The 36-byte encoding of an optional key: presence tag, then the key
/// bytes, zero-filled when absent.
pub open spec fn spec_pack_opt_key(k: Option<Seq<u8>>) -> Seq<u8> {
    match k {
        Some(key) => seq![1u8, 0u8, 0u8, 0u8] + key,
        None => seq![0u8, 0u8, 0u8, 0u8] + zero_bytes(32),
    }
}

/// Decoding an optional key from the front of `b`: a tag other than 0 or 1
/// is rejected, and a valid tag demands the full 36-byte field.
pub open spec fn spec_unpack_opt_key(b: Seq<u8>) -> Result<Option<Seq<u8>>, TokenError> {
    if b.len() < 4 {
        Err(TokenError::MalformedBuffer)
    } else if b[0] == 0 && b[1] == 0 && b[2] == 0 && b[3] == 0 {
        if b.len() < 36 {
            Err(TokenError::MalformedBuffer)
        } else {
            Ok(None)
        }
    } else if b[0] == 1 && b[1] == 0 && b[2] == 0 && b[3] == 0 {
        if b.len() < 36 {
            Err(TokenError::MalformedBuffer)
        } else {
            Ok(Some(b.subrange(4, 36)))
        }
    } else {
        Err(TokenError::InvalidOptionalTag)
    }
}

/// The 12-byte encoding of an optional 64-bit amount.
pub open spec fn spec_pack_opt_u64(v: Option<u64>) -> Seq<u8> {
    match v {
        Some(x) => seq![1u8, 0u8, 0u8, 0u8] + spec_u64_to_le_bytes(x),
        None => seq![0u8, 0u8, 0u8, 0u8] + zero_bytes(8),
    }
}

/// Decoding an optional 64-bit amount from the front of `b`.
pub open spec fn spec_unpack_opt_u64(b: Seq<u8>) -> Result<Option<u64>, TokenError> {
    if b.len() < 4 {
        Err(TokenError::MalformedBuffer)
    } else if b[0] == 0 && b[1] == 0 && b[2] == 0 && b[3] == 0 {
        if b.len() < 12 {
            Err(TokenError::MalformedBuffer)
        } else {
            Ok(None)
        }
    } else if b[0] == 1 && b[1] == 0 && b[2] == 0 && b[3] == 0 {
        if b.len() < 12 {
            Err(TokenError::MalformedBuffer)
        } else {
            Ok(Some(spec_u64_from_le_bytes(b.subrange(4, 12))))
        }
    } else {
        Err(TokenError::InvalidOptionalTag)
    }
}

/// Decodes the optional key standing at `off` in `b`.
pub fn unpack_opt_key_at(b: &[u8], off: usize) -> (r: Result<Option<Pubkey>, TokenError>)
    requires
        off <= b@.len(),
    ensures
        ({
            let tail = b@.subrange(off as int, b@.len() as int);
            match r {
                Ok(k) => spec_unpack_opt_key(tail) == Ok::<Option<Seq<u8>>, TokenError>(
                    opt_key_view(k),
                ) && opt_key_wf(k),
                Err(e) => spec_unpack_opt_key(tail) == Err::<Option<Seq<u8>>, TokenError>(e),
            }
        }),
{
    let ghost tail = b@.subrange(off as int, b@.len() as int);
    if b.len() - off < 4 {
        return Err(TokenError::MalformedBuffer);
    }
    let t0 = read_byte_at(b, off);
    let t1 = read_byte_at(b, off + 1);
    let t2 = read_byte_at(b, off + 2);
    let t3 = read_byte_at(b, off + 3);
    if t0 == 0 && t1 == 0 && t2 == 0 && t3 == 0 {
        if b.len() - off < OPT_KEY_LEN {
            return Err(TokenError::MalformedBuffer);
        }
        Ok(None)
    } else if t0 == 1 && t1 == 0 && t2 == 0 && t3 == 0 {
        if b.len() - off < OPT_KEY_LEN {
            return Err(TokenError::MalformedBuffer);
        }
        let key = read_key_at(b, off + 4);
        proof {
            assert(key@ =~= tail.subrange(4, 36));
        }
        Ok(Some(key))
    } else {
        Err(TokenError::InvalidOptionalTag)
    }
}

/// Decodes the optional amount standing at `off` in `b`.
pub fn unpack_opt_u64_at(b: &[u8], off: usize) -> (r: Result<Option<u64>, TokenError>)
    requires
        off <= b@.len(),
    ensures
        ({
            let tail = b@.subrange(off as int, b@.len() as int);
            match r {
                Ok(v) => spec_unpack_opt_u64(tail) == Ok::<Option<u64>, TokenError>(v),
                Err(e) => spec_unpack_opt_u64(tail) == Err::<Option<u64>, TokenError>(e),
            }
        }),
{
    let ghost tail = b@.subrange(off as int, b@.len() as int);
    if b.len() - off < 4 {
        return Err(TokenError::MalformedBuffer);
    }
    let t0 = read_byte_at(b, off);
    let t1 = read_byte_at(b, off + 1);
    let t2 = read_byte_at(b, off + 2);
    let t3 = read_byte_at(b, off + 3);
    if t0 == 0 && t1 == 0 && t2 == 0 && t3 == 0 {
        if b.len() - off < OPT_U64_LEN {
            return Err(TokenError::MalformedBuffer);
        }
        Ok(None)
    } else if t0 == 1 && t1 == 0 && t2 == 0 && t3 == 0 {
        if b.len() - off < OPT_U64_LEN {
            return Err(TokenError::MalformedBuffer);
        }
        let v = read_u64_at(b, off + 4);
        proof {
            assert(b@.subrange(off + 4, off as int + 12) =~= tail.subrange(4, 12));
        }
        Ok(Some(v))
    } else {
        Err(TokenError::InvalidOptionalTag)
    }
}

/// Appends the 36-byte encoding of an optional key to `buf`.
pub fn pack_opt_key_into(buf: &mut Vec<u8>, k: &Option<Pubkey>)
    requires
        opt_key_wf(*k),
    ensures
        final(buf)@ == old(buf)@ + spec_pack_opt_key(opt_key_view(*k)),
{
    match k {
        Some(p) => {
            buf.push(1u8);
            buf.push(0u8);
            buf.push(0u8);
            buf.push(0u8);
            push_bytes(buf, p.as_bytes().as_slice());
            proof {
                assert(buf@ =~= old(buf)@ + spec_pack_opt_key(opt_key_view(*k)));
            }
        },
        None => {
            buf.push(0u8);
            buf.push(0u8);
            buf.push(0u8);
            buf.push(0u8);
            push_zeros(buf, 32);
            proof {
                assert(buf@ =~= old(buf)@ + spec_pack_opt_key(opt_key_view(*k)));
            }
        },
    }
}

/// Appends the 12-byte encoding of an optional amount to `buf`.
pub fn pack_opt_u64_into(buf: &mut Vec<u8>, v: &Option<u64>)
    ensures
        final(buf)@ == old(buf)@ + spec_pack_opt_u64(*v),
{
    match v {
        Some(x) => {
            buf.push(1u8);
            buf.push(0u8);
            buf.push(0u8);
            buf.push(0u8);
            let bytes = u64_to_le_bytes(*x);
            push_bytes(buf, bytes.as_slice());
            proof {
                assert(buf@ =~= old(buf)@ + spec_pack_opt_u64(*v));
            }
        },
        None => {
            buf.push(0u8);
            buf.push(0u8);
            buf.push(0u8);
            buf.push(0u8);
            push_zeros(buf, 8);
            proof {
                assert(buf@ =~= old(buf)@ + spec_pack_opt_u64(*v));
            }
        },
    }
}

/// Decoding an optional key looks only at the first 36 bytes: anything
/// after the field is ignored.
pub proof fn lemma_unpack_opt_key_window(b: Seq<u8>)
    requires
        b.len() >= 36,
    ensures
        spec_unpack_opt_key(b) == spec_unpack_opt_key(b.subrange(0, 36)),
{
    let t = b.subrange(0, 36);
    if b[0] == 1 && b[1] == 0 && b[2] == 0 && b[3] == 0 {
        assert(b.subrange(4, 36) =~= t.subrange(4, 36));
    }
}

/// Decoding an optional amount looks only at the first 12 bytes: anything
/// after the field is ignored.
pub proof fn lemma_unpack_opt_u64_window(b: Seq<u8>)
    requires
        b.len() >= 12,
    ensures
        spec_unpack_opt_u64(b) == spec_unpack_opt_u64(b.subrange(0, 12)),
{
    let t = b.subrange(0, 12);
    if b[0] == 1 && b[1] == 0 && b[2] == 0 && b[3] == 0 {
        assert(b.subrange(4, 12) =~= t.subrange(4, 12));
    }
}

/// Law: decoding an encoded optional key gives the value back, for any
/// 32-byte key and for the absent case alike.
pub proof fn lemma_opt_key_round_trip(k: Option<Seq<u8>>)
    requires
        (k matches Some(s) ==> s.len() == 32),
    ensures
        spec_unpack_opt_key(spec_pack_opt_key(k)) == Ok::<Option<Seq<u8>>, TokenError>(k),
{
    let b = spec_pack_opt_key(k);
    match k {
        Some(s) => {
            assert(b.len() == 36);
            assert(b.subrange(4, 36) =~= s);
        },
        None => {
            assert(b.len() == 36);
        },
    }
}

/// Law: decoding an encoded optional amount gives the value back.
pub proof fn lemma_opt_u64_round_trip(v: Option<u64>)
    ensures
        spec_unpack_opt_u64(spec_pack_opt_u64(v)) == Ok::<Option<u64>, TokenError>(v),
{
    let b = spec_pack_opt_u64(v);
    match v {
        Some(x) => {
            lemma_auto_spec_u64_to_from_le_bytes();
            assert(b.len() == 12);
            assert(b.subrange(4, 12) =~= spec_u64_to_le_bytes(x));
        },
        None => {
            assert(b.len() == 12);
        },
    }
}

} // verus!
