use vstd::prelude::*;
use vstd::bytes::{
    lemma_auto_spec_u64_to_from_le_bytes, spec_u64_to_le_bytes, u64_from_le_bytes, u64_to_le_bytes,
};

use crate::error::ProcessError;
use crate::instruction::{
    i64_from_u64_bits, i64_le_bytes, i64_to_u64_bits, lemma_i64_bits_inverse,
    lemma_i64_bits_round_trip,
};

verus! {

/// The size of the stored record: 1 + 32 + 32 + 8 + 8 + 8 + 8 bytes.
pub const AUCTION_LEN: usize = 97;

/// The persisted state of one auction.
#[derive(Clone, Copy, Debug, PartialEq, Eq)]
pub struct Auction {
    /// Set once, by the initializing instruction.
    pub is_initialized: bool,
    /// The owner allowed to withdraw once the auction has finished.
    pub authority: [u8; 32],
    /// The mint of the token on sale.
    pub token: [u8; 32],
    /// When bidding opens.
    pub time_start: i64,
    /// The time between two price cuts; positive in an initialized record.
    pub time_step: i64,
    /// The price of one token while the first step lasts.
    pub price_start: u64,
    /// The price cut at each step.
    pub price_step: u64,
}

impl Auction {
    /// The record's stored form, field by field, integers little-endian.
    pub open spec fn spec_bytes(self) -> Seq<u8> {
        seq![if self.is_initialized { 1u8 } else { 0u8 }] + self.authority@ + self.token@
            + i64_le_bytes(self.time_start) + i64_le_bytes(self.time_step) + spec_u64_to_le_bytes(
            self.price_start,
        ) + spec_u64_to_le_bytes(self.price_step)
    }

    /// A record whose fields are all zero or false: the state of a fresh account.
    pub fn new() -> (r: Auction)
        ensures
            r.is_blank(),
    {
        let r = Auction {
            is_initialized: false,
            authority: [0u8; 32],
            token: [0u8; 32],
            time_start: 0,
            time_step: 0,
            price_start: 0,
            price_step: 0,
        };
        assert(r.authority@ =~= seq![0u8; 32]);
        assert(r.token@ =~= seq![0u8; 32]);
        r
    }

    /// Whether the initializing instruction has run on this record.
    pub fn is_initialized(&self) -> (r: bool)
        ensures
            r == self.is_initialized,
    {
        self.is_initialized
    }
}

impl Default for Auction {
    /// The all-zero record of a fresh account.
    fn default() -> (r: Auction)
        ensures
            r.is_blank(),
    {
        Auction::new()
    }
}

impl Auction {
    /// Whether every field of the record is zero or false.
    pub open spec fn is_blank(self) -> bool {
        &&& !self.is_initialized
        &&& self.authority@ == seq![0u8; 32]
        &&& self.token@ == seq![0u8; 32]
        &&& self.time_start == 0 && self.time_step == 0
        &&& self.price_start == 0 && self.price_step == 0
    }
}

/// The record whose stored form is `s`, if there is one.
pub open spec fn spec_auction_from(s: Seq<u8>) -> Option<Auction> {
    if exists|a: Auction| a.spec_bytes() == s {
        Some(choose|a: Auction| a.spec_bytes() == s)
    } else {
        None
    }
}

/// Two records with the same stored form are the same record.
pub proof fn lemma_spec_bytes_injective(a: Auction, b: Auction)
    requires
        a.spec_bytes() == b.spec_bytes(),
    ensures
        a == b,
{
    lemma_auto_spec_u64_to_from_le_bytes();
    let s = a.spec_bytes();
    let t = b.spec_bytes();
    assert(s.subrange(1, 33) =~= a.authority@);
    assert(t.subrange(1, 33) =~= b.authority@);
    assert(s.subrange(33, 65) =~= a.token@);
    assert(t.subrange(33, 65) =~= b.token@);
    assert(a.authority =~= b.authority);
    assert(a.token =~= b.token);
    assert(s.subrange(65, 73) =~= i64_le_bytes(a.time_start));
    assert(t.subrange(65, 73) =~= i64_le_bytes(b.time_start));
    assert(s.subrange(73, 81) =~= i64_le_bytes(a.time_step));
    assert(t.subrange(73, 81) =~= i64_le_bytes(b.time_step));
    assert(s.subrange(81, 89) =~= spec_u64_to_le_bytes(a.price_start));
    assert(t.subrange(81, 89) =~= spec_u64_to_le_bytes(b.price_start));
    assert(s.subrange(89, 97) =~= spec_u64_to_le_bytes(a.price_step));
    assert(t.subrange(89, 97) =~= spec_u64_to_le_bytes(b.price_step));
    lemma_i64_bits_round_trip(a.time_start);
    lemma_i64_bits_round_trip(b.time_start);
    lemma_i64_bits_round_trip(a.time_step);
    lemma_i64_bits_round_trip(b.time_step);
    assert(s[0] == t[0]);
}

/// Once a stored form is known to belong to `a`, it decodes to `a`.
pub proof fn lemma_auction_from_bytes(a: Auction)
    ensures
        spec_auction_from(a.spec_bytes()) == Some(a),
{
    let s = a.spec_bytes();
    assert(exists|b: Auction| b.spec_bytes() == s);
    let c = choose|b: Auction| b.spec_bytes() == s;
    lemma_spec_bytes_injective(a, c);
}

/// Copies the 32 bytes of `src` from `at` into a key.
fn read_key(src: &[u8], at: usize) -> (k: [u8; 32])
    requires
        at + 32 <= src@.len(),
    ensures
        k@ == src@.subrange(at as int, at + 32),
{
    let mut k = [0u8; 32];
    let n = src.len();
    let mut i: usize = 0;
    while i < 32
        invariant
            i <= 32,
            n == src@.len(),
            at + 32 <= src@.len(),
            k@.len() == 32,
            forall|j: int| 0 <= j < i ==> k@[j] == src@[at + j],
        decreases 32 - i,
    {
        k[i] = src[at + i];
        i += 1;
    }
    assert(k@ =~= src@.subrange(at as int, at + 32));
    k
}

/// Overwrites the bytes of `dst` from `at` with `bytes`.
fn write_bytes(dst: &mut [u8], at: usize, bytes: &[u8])
    requires
        at + bytes@.len() <= old(dst)@.len(),
    ensures
        final(dst)@ == old(dst)@.subrange(0, at as int) + bytes@ + old(dst)@.subrange(
            at + bytes@.len(),
            old(dst)@.len() as int,
        ),
{
    let ghost d0 = dst@;
    let n = dst.len();
    let mut i: usize = 0;
    while i < bytes.len()
        invariant
            n == d0.len(),
            i <= bytes@.len(),
            at + bytes@.len() <= d0.len(),
            dst@.len() == d0.len(),
            forall|j: int| 0 <= j < at ==> dst@[j] == d0[j],
            forall|j: int| 0 <= j < i ==> dst@[at + j] == bytes@[j],
            forall|j: int| at + i <= j < d0.len() ==> dst@[j] == d0[j],
        decreases bytes@.len() - i,
    {
        dst[at + i] = bytes[i];
        i += 1;
    }
    assert(dst@ =~= d0.subrange(0, at as int) + bytes@ + d0.subrange(
        at + bytes@.len(),
        d0.len() as int,
    ));
}

/// Overwrites the 32 bytes of `dst` from `at` with `key`.
fn write_key(dst: &mut [u8], at: usize, key: &[u8; 32])
    requires
        at + 32 <= old(dst)@.len(),
    ensures
        final(dst)@ == old(dst)@.subrange(0, at as int) + key@ + old(dst)@.subrange(
            at + 32,
            old(dst)@.len() as int,
        ),
{
    let ghost d0 = dst@;
    let n = dst.len();
    let mut i: usize = 0;
    while i < 32
        invariant
            n == d0.len(),
            i <= 32,
            at + 32 <= d0.len(),
            key@.len() == 32,
            dst@.len() == d0.len(),
            forall|j: int| 0 <= j < at ==> dst@[j] == d0[j],
            forall|j: int| 0 <= j < i ==> dst@[at + j] == key@[j],
            forall|j: int| at + i <= j < d0.len() ==> dst@[j] == d0[j],
        decreases 32 - i,
    {
        dst[at + i] = key[i];
        i += 1;
    }
    assert(dst@ =~= d0.subrange(0, at as int) + key@ + d0.subrange(at + 32, d0.len() as int));
}

impl Auction {
    /// Writes the record's stored form over the first 97 bytes of `dst`.
    pub fn pack_into_slice(&self, dst: &mut [u8])
        requires
            old(dst)@.len() >= AUCTION_LEN,
        ensures
            final(dst)@ == self.spec_bytes() + old(dst)@.subrange(
                AUCTION_LEN as int,
                old(dst)@.len() as int,
            ),
    {
        let ghost d0 = dst@;
        let flag: u8 = if self.is_initialized {
            1
        } else {
            0
        };
        dst[0] = flag;
        write_key(dst, 1, &self.authority);
        write_key(dst, 33, &self.token);
        let b = u64_to_le_bytes(i64_to_u64_bits(self.time_start));
        write_bytes(dst, 65, b.as_slice());
        let b = u64_to_le_bytes(i64_to_u64_bits(self.time_step));
        write_bytes(dst, 73, b.as_slice());
        let b = u64_to_le_bytes(self.price_start);
        write_bytes(dst, 81, b.as_slice());
        let b = u64_to_le_bytes(self.price_step);
        write_bytes(dst, 89, b.as_slice());
        assert(dst@ =~= self.spec_bytes() + d0.subrange(AUCTION_LEN as int, d0.len() as int));
    }

    /// Reads a record from the first 97 bytes of `src`; the flag byte must be
    /// 0 or 1.
    pub fn unpack_from_slice(src: &[u8]) -> (r: Result<Auction, ProcessError>)
        requires
            src@.len() >= AUCTION_LEN,
        ensures
            match r {
                Ok(a) => a.spec_bytes() == src@.subrange(0, AUCTION_LEN as int),
                Err(e) => src@[0] > 1 && e == ProcessError::InvalidAccountData,
            },
    {
        let flag = src[0];
        let is_initialized = if flag == 0 {
            false
        } else if flag == 1 {
            true
        } else {
            return Err(ProcessError::InvalidAccountData);
        };
        let authority = read_key(src, 1);
        let token = read_key(src, 33);
        let ts_bits = u64_from_le_bytes(&src[65..73]);
        let step_bits = u64_from_le_bytes(&src[73..81]);
        let price_start = u64_from_le_bytes(&src[81..89]);
        let price_step = u64_from_le_bytes(&src[89..97]);
        let a = Auction {
            is_initialized,
            authority,
            token,
            time_start: i64_from_u64_bits(ts_bits),
            time_step: i64_from_u64_bits(step_bits),
            price_start,
            price_step,
        };
        proof {
            lemma_auto_spec_u64_to_from_le_bytes();
            lemma_i64_bits_inverse(ts_bits);
            lemma_i64_bits_inverse(step_bits);
            let s = src@;
            assert(s.subrange(65, 73).len() == 8);
            assert(s.subrange(73, 81).len() == 8);
            assert(s.subrange(81, 89).len() == 8);
            assert(s.subrange(89, 97).len() == 8);
            assert(a.spec_bytes() =~= s.subrange(0, AUCTION_LEN as int));
        }
        Ok(a)
    }

    /// Reads a record from data that must be exactly 97 bytes long.
    pub fn unpack_unchecked(src: &[u8]) -> (r: Result<Auction, ProcessError>)
        ensures
            match spec_auction_from(src@) {
                Some(a) => r == Ok::<Auction, ProcessError>(a),
                None => r == Err::<Auction, ProcessError>(ProcessError::InvalidAccountData),
            },
    {
        if src.len() != AUCTION_LEN {
            proof {
                if exists|a: Auction| a.spec_bytes() == src@ {
                    let a = choose|a: Auction| a.spec_bytes() == src@;
                    assert(a.spec_bytes().len() == 97) by {
                        lemma_auto_spec_u64_to_from_le_bytes();
                    }
                }
            }
            return Err(ProcessError::InvalidAccountData);
        }
        let r = Auction::unpack_from_slice(src);
        proof {
            match r {
                Ok(a) => {
                    assert(src@.subrange(0, 97) =~= src@);
                    lemma_auction_from_bytes(a);
                },
                Err(_) => {
                    if exists|a: Auction| a.spec_bytes() == src@ {
                        let a = choose|a: Auction| a.spec_bytes() == src@;
                        assert(a.spec_bytes()[0] <= 1);
                    }
                },
            }
        }
        r
    }

    /// Writes the record into data that must be exactly 97 bytes long; data
    /// of any other length is left as it was.
    pub fn pack(src: Auction, dst: &mut [u8]) -> (r: Result<(), ProcessError>)
        ensures
            old(dst)@.len() == AUCTION_LEN ==> r is Ok && final(dst)@ == src.spec_bytes(),
            old(dst)@.len() != AUCTION_LEN ==> r == Err::<(), ProcessError>(
                ProcessError::InvalidAccountData,
            ) && final(dst)@ == old(dst)@,
    {
        if dst.len() != AUCTION_LEN {
            return Err(ProcessError::InvalidAccountData);
        }
        src.pack_into_slice(dst);
        proof {
            lemma_auto_spec_u64_to_from_le_bytes();
            assert(final(dst)@ =~= src.spec_bytes());
        }
        Ok(())
    }
}

/// Reading back a stored record gives the record.
pub proof fn lemma_record_round_trip(a: Auction)
    ensures
        a.spec_bytes().len() == AUCTION_LEN,
        spec_auction_from(a.spec_bytes()) == Some(a),
{
    lemma_auto_spec_u64_to_from_le_bytes();
    lemma_auction_from_bytes(a);
}

} // verus!
