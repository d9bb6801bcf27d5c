//! A single block of the ledger, and the proof-of-work mining that
//! produces one.

use vstd::prelude::*;
use rayon::iter::{IntoParallelIterator, ParallelIterator};
use crate::hashing::{
    meets_difficulty, sha256, spec_block_hash, spec_hash_input, build_hash_input, hex_encode,
    spec_hex_encode,
};

verus! {

/// Why a block could not be produced.
#[derive(Debug, Clone, Copy, PartialEq, Eq, Structural)]
pub enum MineError {
    /// Every representable nonce was tried without meeting the difficulty.
    NonceExhausted,
    /// The system clock reported a time before the Unix epoch; the
    /// timestamp is a hashed input, so mining cannot proceed without one.
    ClockBeforeEpoch,
}

/// Relies on std's `SystemTime::now`, `SystemTime::duration_since` and
/// `Duration::as_nanos`: reads the clock as nanoseconds since the Unix
/// epoch, `None` when the clock is before the epoch. Nothing can be
/// promised of the value read.
#[verifier::external_body]
fn current_time_nanos() -> Option<u128> {
    match std::time::SystemTime::now().duration_since(std::time::SystemTime::UNIX_EPOCH) {
        Ok(d) => Some(d.as_nanos()),
        Err(_) => None,
    }
}

/// The nonce space is exhausted for these inputs: no nonce in the searched
/// range `[0, u64::MAX)` yields a hash that meets the difficulty.
pub open spec fn nonce_space_exhausted(
    previous_hash: Seq<u8>,
    data: Seq<char>,
    timestamp_nanos: u128,
    difficulty: nat,
) -> bool {
    forall|n: u64|
        n < u64::MAX ==> !meets_difficulty(
            #[trigger] spec_block_hash(previous_hash, data, timestamp_nanos, n),
            difficulty,
        )
}

/// Evaluates one nonce candidate: returns the nonce with its hash when
/// that hash meets the difficulty.
pub fn try_nonce(
    data: &String,
    previous_hash: &Vec<u8>,
    timestamp_nanos: u128,
    difficulty: u8,
    nonce: u64,
) -> (r: Option<(u64, Vec<u8>)>)
    ensures
        match r {
            Some(p) => {
                &&& p.0 == nonce
                &&& p.1@ == spec_block_hash(previous_hash@, data@, timestamp_nanos, nonce)
                &&& p.1@.len() == 32
                &&& meets_difficulty(p.1@, difficulty as nat)
            },
            None => !meets_difficulty(
                spec_block_hash(previous_hash@, data@, timestamp_nanos, nonce),
                difficulty as nat,
            ),
        },
{
    let input = build_hash_input(previous_hash, data.as_str(), timestamp_nanos, nonce);
    let hash = sha256(&input);
    if crate::hashing::check_difficulty(&hash, difficulty) {
        Some((nonce, hash))
    } else {
        None
    }
}

/// Relies on rayon's `find_map_any` over the nonce range `0..u64::MAX`:
/// it returns some non-`None` closure result, and returns `None` only
/// after the closure returned `None` for every nonce in the range. The
/// closure only calls `try_nonce`, so this contract restates `try_nonce`'s
/// own over the nonce that won the race.
#[verifier::external_body]
fn search_nonce(
    data: &String,
    previous_hash: &Vec<u8>,
    timestamp_nanos: u128,
    difficulty: u8,
) -> (r: Option<(u64, Vec<u8>)>)
    ensures
        match r {
            Some(p) => {
                &&& p.0 < u64::MAX
                &&& p.1@ == spec_block_hash(previous_hash@, data@, timestamp_nanos, p.0)
                &&& p.1@.len() == 32
                &&& meets_difficulty(p.1@, difficulty as nat)
            },
            None => nonce_space_exhausted(previous_hash@, data@, timestamp_nanos, difficulty as nat),
        },
{
    (0u64..u64::MAX)
        .into_par_iter()
        .find_map_any(|nonce| try_nonce(data, previous_hash, timestamp_nanos, difficulty, nonce))
}

/// Searches for a nonce whose hash meets the difficulty, racing
/// independent workers over the nonce range; any satisfying nonce may win,
/// not necessarily the smallest. A difficulty above 64 exceeds the 64 hex
/// digits of a SHA-256 hash, so no nonce is searched for it.
pub fn mine_block(
    data: &String,
    previous_hash: &Vec<u8>,
    timestamp_nanos: u128,
    difficulty: u8,
) -> (r: Result<(u64, Vec<u8>), MineError>)
    ensures
        match r {
            Ok(p) => {
                &&& p.0 < u64::MAX
                &&& p.1@ == spec_block_hash(previous_hash@, data@, timestamp_nanos, p.0)
                &&& p.1@.len() == 32
                &&& meets_difficulty(p.1@, difficulty as nat)
            },
            Err(e) => {
                &&& e == MineError::NonceExhausted
                &&& (difficulty > 64 || nonce_space_exhausted(
                    previous_hash@,
                    data@,
                    timestamp_nanos,
                    difficulty as nat,
                ))
            },
        },
{
    if difficulty > 64 {
        // A 32-byte hash has exactly 64 hex digits, so no hash can start
        // with more than 64 zeros; searching would exhaust every nonce.
        return Err(MineError::NonceExhausted);
    }
    match search_nonce(data, previous_hash, timestamp_nanos, difficulty) {
        Some(p) => Ok(p),
        None => Err(MineError::NonceExhausted),
    }
}

/// A single block of the ledger, immutable once constructed.
#[derive(Debug)]
pub struct Block {
    /// Creation time in nanoseconds since the Unix epoch; a hashed input.
    pub timestamp: u128,
    /// The predecessor block's hash; empty only for the genesis block.
    pub previous_hash: Vec<u8>,
    /// SHA-256 over this block's own fields, meeting the difficulty in
    /// effect when the block was mined.
    pub hash: Vec<u8>,
    /// Arbitrary text payload, opaque to the algorithm.
    pub data: String,
    /// The nonce discovered during mining.
    pub nonce: u64,
}

impl Block {
    /// The block's stored hash is the hash of its own fields and meets the
    /// given difficulty.
    pub open spec fn wf(self, difficulty: nat) -> bool {
        &&& self.hash@ == spec_block_hash(self.previous_hash@, self.data@, self.timestamp, self.nonce)
        &&& self.hash@.len() == 32
        &&& meets_difficulty(self.hash@, difficulty)
    }

    /// Mines a block holding `data`, bound to `previous_hash`, at the
    /// given difficulty. The creation time is read once, before the
    /// search, and held fixed for every nonce attempt.
    pub fn new(data: String, previous_hash: Vec<u8>, difficulty: u8) -> (r: Result<Block, MineError>)
        ensures
            match r {
                Ok(b) => {
                    &&& b.wf(difficulty as nat)
                    &&& b.data@ == data@
                    &&& b.previous_hash@ == previous_hash@
                    &&& b.nonce < u64::MAX
                },
                Err(e) => {
                    &&& (e == MineError::ClockBeforeEpoch || e == MineError::NonceExhausted)
                    &&& (e == MineError::NonceExhausted ==> difficulty > 64 || exists|ts: u128|
                        #[trigger] nonce_space_exhausted(
                            previous_hash@,
                            data@,
                            ts,
                            difficulty as nat,
                        ))
                },
            },
    {
        let timestamp = match current_time_nanos() {
            Some(t) => t,
            None => {
                return Err(MineError::ClockBeforeEpoch);
            },
        };
        match mine_block(&data, &previous_hash, timestamp, difficulty) {
            Ok((nonce, hash)) => Ok(Block { timestamp, previous_hash, hash, data, nonce }),
            Err(e) => {
                proof {
                    if difficulty <= 64 {
                        assert(nonce_space_exhausted(
                            previous_hash@,
                            data@,
                            timestamp,
                            difficulty as nat,
                        ));
                    }
                }
                Err(e)
            },
        }
    }

    /// Recomputes the hash from the block's stored fields alone: a pure
    /// function of `(previous_hash, data, timestamp, nonce)`, used for
    /// verification, never for mining.
    pub fn compute_hash(&self) -> (r: Vec<u8>)
        ensures
            r@ == spec_block_hash(self.previous_hash@, self.data@, self.timestamp, self.nonce),
            r@.len() == 32,
    {
        let input = build_hash_input(&self.previous_hash, self.data.as_str(), self.timestamp, self.nonce);
        sha256(&input)
    }

    /// The stored hash as lowercase hexadecimal text.
    pub fn hash_hex(&self) -> (r: String)
        ensures
            r@ == spec_hex_encode(self.hash@),
    {
        hex_encode(&self.hash)
    }

    /// The predecessor hash as lowercase hexadecimal text.
    pub fn previous_hash_hex(&self) -> (r: String)
        ensures
            r@ == spec_hex_encode(self.previous_hash@),
    {
        hex_encode(&self.previous_hash)
    }
}

/// Hash recomputation is deterministic: two blocks that agree on the
/// hashed fields have the same recomputed hash, so repeated calls of
/// `compute_hash` on one block return identical bytes.
pub proof fn lemma_compute_hash_deterministic(a: Block, b: Block)
    requires
        a.previous_hash@ == b.previous_hash@,
        a.data@ == b.data@,
        a.timestamp == b.timestamp,
        a.nonce == b.nonce,
    ensures
        spec_block_hash(a.previous_hash@, a.data@, a.timestamp, a.nonce)
            == spec_block_hash(b.previous_hash@, b.data@, b.timestamp, b.nonce),
{
}

} // verus!
