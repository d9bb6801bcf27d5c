//! The chain: an append-only sequence of blocks sharing one difficulty,
//! with linkage and integrity verification.

use vstd::prelude::*;
use crate::block::{nonce_space_exhausted, Block, MineError};
use crate::hashing::{bytes_eq, spec_block_hash};

verus! {

/// The difficulty used when none is given: 6 leading zero hex digits.
pub const DEFAULT_DIFFICULTY: u8 = 6;

/// An ordered, append-only sequence of blocks sharing one difficulty.
#[derive(Debug)]
pub struct Blockchain {
    /// Insertion order is chronological order; index 0 is the genesis block.
    pub blocks: Vec<Block>,
    /// Fixed at construction; applies to every block mined on this chain.
    pub difficulty: u8,
}

impl Blockchain {
    /// The chain invariant: the genesis block is present with an empty
    /// predecessor hash, every block's stored hash is the hash of its own
    /// fields and meets the chain's difficulty, and every later block
    /// references its predecessor's hash.
    pub open spec fn wf(self) -> bool {
        &&& self.blocks@.len() >= 1
        &&& self.blocks@[0].previous_hash@ == Seq::<u8>::empty()
        &&& forall|i: int|
            0 <= i < self.blocks@.len() ==> #[trigger] self.blocks@[i].wf(self.difficulty as nat)
        &&& forall|i: int|
            #![trigger self.blocks@[i]]
            1 <= i < self.blocks@.len() ==> self.blocks@[i].previous_hash@
                == self.blocks@[i - 1].hash@
    }

    /// What validation checks: every block after the first has a stored
    /// hash equal to its recomputed hash and references its predecessor's
    /// stored hash. The genesis block's own hash is never re-verified by
    /// this walk, since it has no predecessor comparison.
    pub open spec fn spec_valid(self) -> bool {
        forall|i: int|
            #![trigger self.blocks@[i]]
            1 <= i < self.blocks@.len() ==> {
                &&& self.blocks@[i].hash@ == spec_block_hash(
                    self.blocks@[i].previous_hash@,
                    self.blocks@[i].data@,
                    self.blocks@[i].timestamp,
                    self.blocks@[i].nonce,
                )
                &&& self.blocks@[i].previous_hash@ == self.blocks@[i - 1].hash@
            }
    }

    /// Creates a chain at the default difficulty.
    pub fn new() -> (r: Result<Blockchain, MineError>)
        ensures
            match r {
                Ok(c) => {
                    &&& c.wf()
                    &&& c.difficulty == DEFAULT_DIFFICULTY
                    &&& c.blocks@.len() == 1
                    &&& c.blocks@[0].previous_hash@ == Seq::<u8>::empty()
                    &&& c.blocks@[0].data@ == "Genesis Block"@
                },
                Err(e) => {
                    &&& (e == MineError::ClockBeforeEpoch || e == MineError::NonceExhausted)
                    &&& (e == MineError::NonceExhausted ==> exists|ts: u128|
                        #[trigger] nonce_space_exhausted(
                            Seq::<u8>::empty(),
                            "Genesis Block"@,
                            ts,
                            DEFAULT_DIFFICULTY as nat,
                        ))
                },
            },
    {
        Blockchain::from_difficulty(DEFAULT_DIFFICULTY)
    }

    /// Creates a chain holding exactly one block: the genesis block, mined
    /// at the given difficulty with payload "Genesis Block" and an empty
    /// predecessor hash.
    pub fn from_difficulty(difficulty: u8) -> (r: Result<Blockchain, MineError>)
        ensures
            match r {
                Ok(c) => {
                    &&& c.wf()
                    &&& c.difficulty == difficulty
                    &&& c.blocks@.len() == 1
                    &&& c.blocks@[0].previous_hash@ == Seq::<u8>::empty()
                    &&& c.blocks@[0].data@ == "Genesis Block"@
                },
                Err(e) => {
                    &&& (e == MineError::ClockBeforeEpoch || e == MineError::NonceExhausted)
                    &&& (e == MineError::NonceExhausted ==> difficulty > 64 || exists|ts: u128|
                        #[trigger] nonce_space_exhausted(
                            Seq::<u8>::empty(),
                            "Genesis Block"@,
                            ts,
                            difficulty as nat,
                        ))
                },
            },
    {
        let genesis = match Block::new("Genesis Block".to_owned(), Vec::new(), difficulty) {
            Ok(b) => b,
            Err(e) => {
                return Err(e);
            },
        };
        let mut blocks: Vec<Block> = Vec::new();
        blocks.push(genesis);
        Ok(Blockchain { blocks, difficulty })
    }

    /// Mines a block holding `data`, bound to the current tail's stored
    /// hash, and appends it as the new tail. On failure the chain is
    /// unchanged; no partial block is appended.
    pub fn add_block(&mut self, data: String) -> (r: Result<(), MineError>)
        requires
            old(self).wf(),
        ensures
            final(self).difficulty == old(self).difficulty,
            match r {
                Ok(()) => {
                    &&& final(self).wf()
                    &&& final(self).blocks@.len() == old(self).blocks@.len() + 1
                    &&& forall|i: int|
                        #![trigger final(self).blocks@[i]]
                        0 <= i < old(self).blocks@.len() ==> final(self).blocks@[i]
                            == old(self).blocks@[i]
                    &&& final(self).blocks@.last().data@ == data@
                    &&& final(self).blocks@.last().previous_hash@
                        == old(self).blocks@.last().hash@
                },
                Err(e) => {
                    &&& *final(self) == *old(self)
                    &&& (e == MineError::ClockBeforeEpoch || e == MineError::NonceExhausted)
                    &&& (e == MineError::NonceExhausted ==> old(self).difficulty > 64
                        || exists|ts: u128|
                        #[trigger] nonce_space_exhausted(
                            old(self).blocks@.last().hash@,
                            data@,
                            ts,
                            old(self).difficulty as nat,
                        ))
                },
            },
    {
        let tail_hash = self.blocks[self.blocks.len() - 1].hash.clone();
        proof {
            assert(tail_hash@ =~= self.blocks@.last().hash@);
        }
        match Block::new(data, tail_hash, self.difficulty) {
            Ok(b) => {
                self.blocks.push(b);
                Ok(())
            },
            Err(e) => Err(e),
        }
    }

    /// Walks every adjacent pair of blocks: the later block's stored hash
    /// must equal its recomputed hash, and its predecessor hash must equal
    /// the earlier block's stored hash. A single-block chain is trivially
    /// valid. Read-only; the chain is not changed.
    pub fn is_chain_valid(&self) -> (r: bool)
        ensures
            r == self.spec_valid(),
    {
        let mut i: usize = 1;
        while i < self.blocks.len()
            invariant
                1 <= i,
                forall|j: int|
                    #![trigger self.blocks@[j]]
                    1 <= j < i ==> {
                        &&& self.blocks@[j].hash@ == spec_block_hash(
                            self.blocks@[j].previous_hash@,
                            self.blocks@[j].data@,
                            self.blocks@[j].timestamp,
                            self.blocks@[j].nonce,
                        )
                        &&& self.blocks@[j].previous_hash@ == self.blocks@[j - 1].hash@
                    },
            decreases self.blocks@.len() - i,
        {
            let recomputed = self.blocks[i].compute_hash();
            if !bytes_eq(&self.blocks[i].hash, &recomputed) {
                return false;
            }
            if !bytes_eq(&self.blocks[i].previous_hash, &self.blocks[i - 1].hash) {
                return false;
            }
            i += 1;
        }
        true
    }
}

/// Chain linkage: a chain produced only by the constructors and appends
/// satisfies the invariant, and the invariant implies that validation
/// succeeds — every adjacent pair passes both the hash check and the
/// linkage check.
pub proof fn lemma_wf_chain_is_valid(c: &Blockchain)
    requires
        c.wf(),
    ensures
        c.spec_valid(),
{
    assert forall|i: int| #![trigger c.blocks@[i]] 1 <= i < c.blocks@.len() implies {
        &&& c.blocks@[i].hash@ == spec_block_hash(
            c.blocks@[i].previous_hash@,
            c.blocks@[i].data@,
            c.blocks@[i].timestamp,
            c.blocks@[i].nonce,
        )
        &&& c.blocks@[i].previous_hash@ == c.blocks@[i - 1].hash@
    } by {
        assert(c.blocks@[i].wf(c.difficulty as nat));
    }
}

/// Tamper detection: replacing a non-genesis block's payload, while every
/// other field and block is held constant, makes validation fail whenever
/// the replaced payload hashes differently from the stored hash. (An
/// undetected replacement would need a SHA-256 collision; the genesis
/// block's payload is outside this walk, since its own hash is never
/// re-verified.)
pub proof fn lemma_tampered_data_detected(c: &Blockchain, t: &Blockchain, i: int)
    requires
        c.wf(),
        1 <= i < c.blocks@.len(),
        t.blocks@.len() == c.blocks@.len(),
        forall|j: int|
            #![trigger t.blocks@[j]]
            0 <= j < c.blocks@.len() && j != i ==> t.blocks@[j] == c.blocks@[j],
        t.blocks@[i].previous_hash@ == c.blocks@[i].previous_hash@,
        t.blocks@[i].hash@ == c.blocks@[i].hash@,
        t.blocks@[i].timestamp == c.blocks@[i].timestamp,
        t.blocks@[i].nonce == c.blocks@[i].nonce,
        spec_block_hash(
            t.blocks@[i].previous_hash@,
            t.blocks@[i].data@,
            t.blocks@[i].timestamp,
            t.blocks@[i].nonce,
        ) != t.blocks@[i].hash@,
    ensures
        !t.spec_valid(),
{
    assert(t.blocks@[i] == t.blocks@[i]);
}

/// Break-the-link detection: a chain in which some block after the first
/// does not reference its predecessor's stored hash fails validation,
/// whether or not that block's own hash is self-consistent.
pub proof fn lemma_broken_link_detected(t: &Blockchain, i: int)
    requires
        1 <= i < t.blocks@.len(),
        t.blocks@[i].previous_hash@ != t.blocks@[i - 1].hash@,
    ensures
        !t.spec_valid(),
{
    assert(t.blocks@[i] == t.blocks@[i]);
}

} // verus!
