//! The chain of blocks, from genesis onward.

use crate::block::has_zero_prefix;
use crate::block::starts_with_zeros;
use crate::block::Block;
use vstd::prelude::*;

verus! {

/// An append-only chain of blocks with a fixed mining difficulty.
#[derive(Debug)]
pub struct Blockchain {
    /// The first block of the chain, also present as the first element of
    /// `chain`.
    pub genesis_block: Block,
    /// All blocks in chain order; index 0 is genesis, and blocks are only
    /// ever appended.
    pub chain: Vec<Block>,
    /// How many leading zero characters every mined block's hash must carry.
    pub difficulty: usize,
}

impl Blockchain {
    /// Chain well-formedness: genesis is the first block, carries sequence
    /// number 0 and an empty predecessor hash; every block's stored hash is
    /// the hash of its own fields; block `i` sits at sequence number `i`;
    /// and every block after genesis names its predecessor's hash and meets
    /// the difficulty.
    pub open spec fn wf(self) -> bool {
        &&& self.chain@.len() >= 1
        &&& self.genesis_block == self.chain@[0]
        &&& self.chain@[0].previous_hash@ == Seq::<char>::empty()
        &&& forall|i: int| 0 <= i < self.chain@.len() ==> (#[trigger] self.chain@[i]).wf()
        &&& forall|i: int| 0 <= i < self.chain@.len() ==> (#[trigger] self.chain@[i]).index == i
        &&& forall|i: int|
            1 <= i < self.chain@.len() ==> (#[trigger] self.chain@[i]).previous_hash@
                == self.chain@[i - 1].hash@
        &&& forall|i: int|
            1 <= i < self.chain@.len() ==> has_zero_prefix(
                (#[trigger] self.chain@[i]).hash@,
                self.difficulty as nat,
            )
    }

    /// Creates a chain with the given difficulty, holding only the genesis
    /// block: sequence number 0, empty predecessor hash, fresh work counter,
    /// its hash computed once and exempt from the difficulty constraint.
    pub fn new(difficulty: usize) -> (r: Blockchain)
        ensures
            r.wf(),
            r.difficulty == difficulty,
            r.chain@.len() == 1,
            r.genesis_block.index == 0,
            r.genesis_block.proof_of_work == 0,
            r.genesis_block.previous_hash@ == Seq::<char>::empty(),
    {
        let genesis_block = Block::new(0, String::new());
        let mut chain: Vec<Block> = Vec::new();
        chain.push(genesis_block.clone());
        Blockchain { genesis_block, chain, difficulty }
    }

    /// Appends one freshly mined block: its sequence number is the current
    /// chain length, its predecessor hash the hash of the current last
    /// block, and its own hash meets the difficulty. Existing blocks, the
    /// genesis reference and the difficulty never change. Only if mining
    /// searched its whole counter space in vain — which no feasible
    /// difficulty brings about, and which difficulty 0 provably cannot — is
    /// the chain left exactly as it was.
    pub fn add_block(&mut self)
        requires
            old(self).wf(),
        ensures
            final(self).wf(),
            final(self).difficulty == old(self).difficulty,
            final(self).genesis_block == old(self).genesis_block,
            old(self).chain@.len() <= final(self).chain@.len() <= old(self).chain@.len() + 1,
            forall|i: int|
                0 <= i < old(self).chain@.len() ==> final(self).chain@[i] == old(self).chain@[i],
            final(self).chain@.len() == old(self).chain@.len() + 1 ==> {
                &&& final(self).chain@.last().index == old(self).chain@.len()
                &&& final(self).chain@.last().previous_hash@ == old(self).chain@.last().hash@
                &&& final(self).chain@.last().wf()
                &&& has_zero_prefix(
                    final(self).chain@.last().hash@,
                    old(self).difficulty as nat,
                )
            },
            final(self).chain@.len() == old(self).chain@.len() ==> *final(self) == *old(self),
            old(self).difficulty == 0 ==> final(self).chain@.len() == old(self).chain@.len() + 1
                && final(self).chain@.last().proof_of_work == 0,
    {
        let n = self.chain.len();
        let last_hash = self.chain[n - 1].hash.clone();
        let mut new_block = Block::new(n as u64, last_hash);
        new_block.mine(self.difficulty);
        if starts_with_zeros(new_block.hash.as_str(), self.difficulty) {
            self.chain.push(new_block);
        }
    }
}

/// Chain linkage: in a well-formed chain, every block after genesis carries
/// its predecessor's hash, sits at its own position as sequence number, and
/// meets the chain's difficulty.
pub proof fn lemma_chain_linkage(c: Blockchain, i: int)
    requires
        c.wf(),
        1 <= i < c.chain@.len(),
    ensures
        c.chain@[i].previous_hash@ == c.chain@[i - 1].hash@,
        c.chain@[i].index == i,
        has_zero_prefix(c.chain@[i].hash@, c.difficulty as nat),
{
}

/// Genesis exemption: whatever the difficulty, a well-formed chain starts
/// with a block at sequence number 0 whose predecessor hash is empty, and
/// that block is the chain's genesis block.
pub proof fn lemma_genesis_exemption(c: Blockchain)
    requires
        c.wf(),
    ensures
        c.chain@.len() >= 1,
        c.chain@[0].index == 0,
        c.chain@[0].previous_hash@ == Seq::<char>::empty(),
        c.genesis_block == c.chain@[0],
{
}

} // verus!
