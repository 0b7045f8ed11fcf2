//! A single block of the chain and its proof-of-work search.

use crate::clock::now_millis;
use crate::digest::sha256_hex;
use crate::digest::sha256_hex_of;
use crate::encode::hash_payload;
use crate::encode::payload_of;
use vstd::prelude::*;
use vstd::string::StrSliceExecFns;

verus! {

/// `s` starts with at least `d` zero characters.
pub open spec fn has_zero_prefix(s: Seq<char>, d: nat) -> bool {
    s.len() >= d && (forall|i: int| 0 <= i < d ==> s[i] == '0')
}

/// Whether `s` starts with at least `d` `'0'` characters.
pub fn starts_with_zeros(s: &str, d: usize) -> (r: bool)
    ensures
        r == has_zero_prefix(s@, d as nat),
{
    let n = s.unicode_len();
    if n < d {
        return false;
    }
    let mut i: usize = 0;
    while i < d
        invariant
            i <= d,
            d <= s@.len(),
            forall|j: int| 0 <= j < i ==> s@[j] == '0',
        decreases d - i,
    {
        if s.get_char(i) != '0' {
            return false;
        }
        i = i + 1;
    }
    true
}

/// One block: a sequence number, the creation time, the work counter, the
/// predecessor's hash and the block's own hash.
#[derive(Debug)]
pub struct Block {
    /// Position of the block in the chain, starting from 0 at genesis.
    pub index: u64,
    /// Creation time in milliseconds since the epoch.
    pub timestamp: u64,
    /// Number of failed attempts the proof-of-work search has made.
    pub proof_of_work: u64,
    /// The `hash` of the preceding block, or empty for genesis.
    pub previous_hash: String,
    /// Hash of this block's other fields, kept in step with them.
    pub hash: String,
}

impl Block {
    /// The hash this block would have with `w` as its work counter: the
    /// SHA-256 digest, in lowercase hexadecimal, of the canonical
    /// serialization of `index`, `timestamp`, `w` and `previous_hash`. The
    /// stored `hash` field plays no part in it.
    pub open spec fn hash_at(self, w: u64) -> Seq<char> {
        sha256_hex_of(payload_of(self.index, self.timestamp, w, self.previous_hash@))
    }

    /// The hash determined by this block's hashed fields.
    pub open spec fn spec_hash(self) -> Seq<char> {
        self.hash_at(self.proof_of_work)
    }

    /// The stored `hash` is exactly the hash of the other fields.
    pub open spec fn wf(self) -> bool {
        self.hash@ == self.spec_hash()
    }

    /// Computes the hash of this block's fields, excluding `hash` itself.
    /// The result depends only on `index`, `timestamp`, `proof_of_work` and
    /// `previous_hash`: calling it again on the same field values, or after
    /// changing nothing but `hash`, returns the same string.
    pub fn generate_block_hash(&self) -> (r: String)
        ensures
            r@ == self.spec_hash(),
            r@.len() == 64,
    {
        let payload = hash_payload(
            self.index,
            self.timestamp,
            self.proof_of_work,
            self.previous_hash.as_str(),
        );
        sha256_hex(payload.as_slice())
    }

    /// Creates a block at position `index` linked to `previous_hash`, stamped
    /// with the current time, with a fresh work counter and its hash already
    /// computed.
    pub fn new(index: u64, previous_hash: String) -> (b: Block)
        ensures
            b.index == index,
            b.proof_of_work == 0,
            b.previous_hash == previous_hash,
            b.wf(),
    {
        let mut block = Block {
            index,
            timestamp: now_millis(),
            proof_of_work: 0,
            previous_hash,
            hash: String::new(),
        };
        block.hash = block.generate_block_hash();
        block
    }

    /// Searches for a hash with at least `difficulty` leading zero
    /// characters: while the stored hash falls short, the work counter moves
    /// to the next value and the hash is recomputed. A block whose hash
    /// already qualifies — always the case for difficulty 0 — is left
    /// untouched, and the counter only ever passes values whose hash falls
    /// short, so it ends on the first qualifying value. The scan walks the
    /// counter space upward and stops at the top of the counter's type;
    /// reaching it without success means every counter value from the
    /// starting one on gives a hash that falls short, which no feasible
    /// difficulty ever brings about.
    pub fn mine(&mut self, difficulty: usize)
        requires
            old(self).wf(),
        ensures
            final(self).wf(),
            final(self).index == old(self).index,
            final(self).timestamp == old(self).timestamp,
            final(self).previous_hash == old(self).previous_hash,
            final(self).proof_of_work >= old(self).proof_of_work,
            forall|w: u64|
                old(self).proof_of_work <= w < final(self).proof_of_work ==> !has_zero_prefix(
                    #[trigger] old(self).hash_at(w),
                    difficulty as nat,
                ),
            has_zero_prefix(final(self).hash@, difficulty as nat) || (final(self).proof_of_work
                == u64::MAX && forall|w: u64|
                w >= old(self).proof_of_work ==> !has_zero_prefix(
                    #[trigger] old(self).hash_at(w),
                    difficulty as nat,
                )),
            has_zero_prefix(old(self).hash@, difficulty as nat) ==> *final(self) == *old(self),
    {
        loop
            invariant
                self.wf(),
                self.index == old(self).index,
                self.timestamp == old(self).timestamp,
                self.previous_hash == old(self).previous_hash,
                self.proof_of_work >= old(self).proof_of_work,
                forall|w: u64|
                    old(self).proof_of_work <= w < self.proof_of_work ==> !has_zero_prefix(
                        #[trigger] old(self).hash_at(w),
                        difficulty as nat,
                    ),
                has_zero_prefix(old(self).hash@, difficulty as nat) ==> *self == *old(self),
            ensures
                self.wf(),
                self.index == old(self).index,
                self.timestamp == old(self).timestamp,
                self.previous_hash == old(self).previous_hash,
                self.proof_of_work >= old(self).proof_of_work,
                forall|w: u64|
                    old(self).proof_of_work <= w < self.proof_of_work ==> !has_zero_prefix(
                        #[trigger] old(self).hash_at(w),
                        difficulty as nat,
                    ),
                has_zero_prefix(self.hash@, difficulty as nat) || (self.proof_of_work == u64::MAX
                    && forall|w: u64|
                    w >= old(self).proof_of_work ==> !has_zero_prefix(
                        #[trigger] old(self).hash_at(w),
                        difficulty as nat,
                    )),
                has_zero_prefix(old(self).hash@, difficulty as nat) ==> *self == *old(self),
            decreases u64::MAX - self.proof_of_work,
        {
            if starts_with_zeros(self.hash.as_str(), difficulty) {
                break;
            }
            proof {
                assert(old(self).hash_at(self.proof_of_work) == self.spec_hash());
            }
            if self.proof_of_work == u64::MAX {
                break;
            }
            self.proof_of_work = self.proof_of_work + 1;
            self.hash = self.generate_block_hash();
        }
    }
}

impl Clone for Block {
    /// A clone carries exactly the fields of the original.
    fn clone(&self) -> (res: Self)
        ensures
            res == *self,
    {
        Block {
            index: self.index,
            timestamp: self.timestamp,
            proof_of_work: self.proof_of_work,
            previous_hash: self.previous_hash.clone(),
            hash: self.hash.clone(),
        }
    }
}

/// The hash of a block is a function of `index`, `timestamp`,
/// `proof_of_work` and `previous_hash` alone. Two blocks that agree on those
/// four fields — whatever either stores in `hash` — determine the same hash,
/// so recomputing it yields identical output, and changing only a block's
/// stored `hash` changes nothing about the value `generate_block_hash`
/// returns.
pub proof fn lemma_hash_excludes_self_hash(a: Block, b: Block)
    requires
        a.index == b.index,
        a.timestamp == b.timestamp,
        a.proof_of_work == b.proof_of_work,
        a.previous_hash@ == b.previous_hash@,
    ensures
        a.spec_hash() == b.spec_hash(),
{
}

} // verus!
