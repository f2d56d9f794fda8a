//! The chain: an append-only sequence of sealed records, and its validation.
use crate::block::{round_finds, salt_of, Block, NONCE_LIMIT};
use vstd::prelude::*;
use vstd::string::*;

verus! {

/// The previous hash that the first record carries.
pub open spec fn sentinel() -> Seq<char> {
    seq!['0']
}

/// The payload of the first record.
pub open spec fn genesis_data() -> Seq<char> {
    "Genesis Block"@
}

/// The previous hash that the record at `i` must carry.
pub open spec fn expected_previous(blocks: Seq<Block>, i: int) -> Seq<char> {
    if i == 0 {
        sentinel()
    } else {
        blocks[i - 1].hash@
    }
}

/// The record at `i` carries the hash of the record before it.
pub open spec fn linked(blocks: Seq<Block>, i: int) -> bool {
    blocks[i].previous_hash@ == blocks[i - 1].hash@
}

/// The first condition that a chain fails, with the index of its record.
#[derive(Clone, Copy, Debug, PartialEq, Eq)]
pub enum ChainFault {
    /// The record's previous hash is not the hash of the record before it.
    BrokenLink(usize),
    /// The record's stored hash is not the digest of its stored fields.
    HashMismatch(usize),
}

/// What validation finds on the pair ending at record `i`: the link first,
/// then the digest.
pub open spec fn fault_at(blocks: Seq<Block>, i: int) -> Option<ChainFault> {
    if !linked(blocks, i) {
        Some(ChainFault::BrokenLink(i as usize))
    } else if !blocks[i].sealed() {
        Some(ChainFault::HashMismatch(i as usize))
    } else {
        None
    }
}

/// The first fault among the pairs ending at records `1..n`.
pub open spec fn first_fault_upto(blocks: Seq<Block>, n: int) -> Option<ChainFault>
    decreases n,
{
    if n <= 1 {
        None
    } else {
        match first_fault_upto(blocks, n - 1) {
            Some(f) => Some(f),
            None => fault_at(blocks, n - 1),
        }
    }
}

/// The first fault of the whole chain, if any.
pub open spec fn first_fault(blocks: Seq<Block>) -> Option<ChainFault> {
    first_fault_upto(blocks, blocks.len() as int)
}

/// The record at `i` is linked to its predecessor and sealed.
pub open spec fn pair_ok(blocks: Seq<Block>, i: int) -> bool {
    linked(blocks, i) && blocks[i].sealed()
}

/// Every record after the first is linked to its predecessor and sealed.
pub open spec fn chain_valid(blocks: Seq<Block>) -> bool {
    forall|i: int| 1 <= i < blocks.len() ==> #[trigger] pair_ok(blocks, i)
}

pub(crate) proof fn lemma_first_fault_upto(blocks: Seq<Block>, n: int)
    requires
        n <= blocks.len(),
    ensures
        first_fault_upto(blocks, n) is None <==> forall|i: int| 1 <= i < n ==> #[trigger] pair_ok(blocks, i),
    decreases n,
{
    if n > 1 {
        lemma_first_fault_upto(blocks, n - 1);
        assert(pair_ok(blocks, n - 1) <==> fault_at(blocks, n - 1) is None);
    }
}

/// Once a fault is found, scanning further pairs reports the same fault.
pub(crate) proof fn lemma_first_fault_stays(blocks: Seq<Block>, k: int, m: int)
    requires
        k <= m,
        first_fault_upto(blocks, k) is Some,
    ensures
        first_fault_upto(blocks, m) == first_fault_upto(blocks, k),
    decreases m - k,
{
    if k < m {
        lemma_first_fault_stays(blocks, k, m - 1);
    }
}

/// A chain of sealed records mined at one difficulty.
pub struct Blockchain {
    pub chain: Vec<Block>,
    pub difficulty: u32,
}

impl Blockchain {
    /// The chain is what construction and appends produce: a first record
    /// with the genesis payload after the sentinel, every record at its own
    /// index, linked to its predecessor, and mined at the chain's difficulty.
    pub open spec fn wf(&self) -> bool {
        let c = self.chain@;
        &&& 1 <= c.len() <= u32::MAX as int + 1
        &&& c[0].data@ == genesis_data()
        &&& forall|i: int|
            0 <= i < c.len() ==> #[trigger] c[i].mined_from(
                i as u32,
                c[i].timestamp,
                c[i].data@,
                expected_previous(c, i),
                self.difficulty,
            )
    }

    /// A chain holding only the genesis record, created at `timestamp`.
    /// `None` when the round of the search is exhausted.
    pub fn new(difficulty: u32, timestamp: u128) -> (r: Option<Blockchain>)
        ensures
            r is None <==> !round_finds(
                0,
                timestamp,
                genesis_data(),
                sentinel(),
                salt_of(0, timestamp),
                difficulty,
                NONCE_LIMIT,
            ),
            r matches Some(bc) ==> {
                &&& bc.wf()
                &&& bc.difficulty == difficulty
                &&& bc.chain@.len() == 1
                &&& bc.chain@[0].mined_from(0, timestamp, genesis_data(), sentinel(), difficulty)
            },
    {
        let mut blockchain = Blockchain { chain: Vec::new(), difficulty };
        if blockchain.add_block(String::from_str("Genesis Block"), timestamp) {
            Some(blockchain)
        } else {
            None
        }
    }

    /// Mines `data` at the next index, after the last record's hash (the
    /// sentinel on an empty chain), and appends the record. Returns false,
    /// with the chain unchanged, when the round of the search is exhausted.
    pub fn add_block(&mut self, data: String, timestamp: u128) -> (r: bool)
        requires
            old(self).chain@.len() <= u32::MAX,
        ensures
            final(self).difficulty == old(self).difficulty,
            r <==> round_finds(
                old(self).chain@.len() as u32,
                timestamp,
                data@,
                expected_previous(old(self).chain@, old(self).chain@.len() as int),
                salt_of(old(self).chain@.len() as u32, timestamp),
                old(self).difficulty,
                NONCE_LIMIT,
            ),
            r ==> {
                &&& final(self).chain@.len() == old(self).chain@.len() + 1
                &&& final(self).chain@.drop_last() == old(self).chain@
                &&& final(self).chain@.last().mined_from(
                    old(self).chain@.len() as u32,
                    timestamp,
                    data@,
                    expected_previous(old(self).chain@, old(self).chain@.len() as int),
                    old(self).difficulty,
                )
            },
            !r ==> final(self).chain@ == old(self).chain@,
            old(self).wf() ==> final(self).wf(),
    {
        let index = self.chain.len() as u32;
        let previous_hash = if index == 0 {
            let s = String::from_str("0");
            proof {
                reveal_strlit("0");
            }
            assert(s@ =~= sentinel());
            s
        } else {
            self.chain[index as usize - 1].hash.clone()
        };
        let ghost old_chain = self.chain@;
        let ghost data_view = data@;
        let ghost previous_view = previous_hash@;
        match Block::new(index, data, previous_hash, self.difficulty, timestamp) {
            Some(block) => {
                self.chain.push(block);
                assert(self.chain@.drop_last() =~= old_chain);
                proof {
                    let c = self.chain@;
                    let d = self.difficulty;
                    assert(previous_view == expected_previous(c, index as int));
                    assert(c[index as int].mined_from(
                        index,
                        timestamp,
                        data_view,
                        previous_view,
                        d,
                    ));
                    if old(self).wf() {
                        assert forall|i: int| 0 <= i < c.len() implies #[trigger] c[i].mined_from(
                            i as u32,
                            c[i].timestamp,
                            c[i].data@,
                            expected_previous(c, i),
                            d,
                        ) by {
                            if i < old_chain.len() {
                                assert(c[i] == old_chain[i]);
                                assert(expected_previous(c, i) == expected_previous(old_chain, i));
                                assert(old_chain[i].mined_from(
                                    i as u32,
                                    old_chain[i].timestamp,
                                    old_chain[i].data@,
                                    expected_previous(old_chain, i),
                                    d,
                                ));
                            }
                        }
                    }
                }
                true
            },
            None => false,
        }
    }

    /// The first condition that the chain fails, walking the pairs of adjacent
    /// records in order: for each, the link, then the digest.
    pub fn find_fault(&self) -> (r: Option<ChainFault>)
        ensures
            r == first_fault(self.chain@),
    {
        let n = self.chain.len();
        let mut i: usize = 1;
        while i < n
            invariant
                n == self.chain@.len(),
                1 <= i,
                i <= n || n == 0,
                first_fault_upto(self.chain@, i as int) is None,
            decreases n - i,
        {
            let current = &self.chain[i];
            let previous = &self.chain[i - 1];
            if !(current.previous_hash == previous.hash) {
                proof {
                    lemma_first_fault_stays(self.chain@, i + 1, n as int);
                }
                return Some(ChainFault::BrokenLink(i));
            }
            let calculated = Block::calculate_hash(
                current.index,
                current.timestamp,
                current.data.as_str(),
                current.previous_hash.as_str(),
                current.nonce,
                current.salt.as_str(),
            );
            if !(current.hash == calculated) {
                proof {
                    lemma_first_fault_stays(self.chain@, i + 1, n as int);
                }
                return Some(ChainFault::HashMismatch(i));
            }
            i = i + 1;
        }
        None
    }

    /// Whether every record after the first is linked to its predecessor
    /// and carries the digest of its own fields.
    pub fn validate_chain(&self) -> (r: bool)
        ensures
            r == chain_valid(self.chain@),
    {
        proof {
            lemma_first_fault_upto(self.chain@, self.chain@.len() as int);
        }
        match self.find_fault() {
            Some(_) => false,
            None => true,
        }
    }
}

} // verus!
