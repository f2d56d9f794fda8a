//! Laws of the hash derivation, the search and the chain, proved over the
//! specifications that the executable functions meet.
use crate::block::{block_hash, first_solution, Block};
use crate::blockchain::{
    chain_valid, expected_previous, fault_at, first_fault, first_fault_upto, lemma_first_fault_stays,
    lemma_first_fault_upto, linked, pair_ok, Blockchain, ChainFault,
};
use crate::text::zero_prefix;
use vstd::prelude::*;

verus! {

/// The digest depends on the fields alone: two derivations over the same
/// index, timestamp, payload, previous hash, nonce and salt agree.
pub proof fn hash_is_deterministic(
    index: u32,
    timestamp: u128,
    data: Seq<char>,
    previous_hash: Seq<char>,
    nonce: u64,
    salt: Seq<char>,
    first: Seq<char>,
    second: Seq<char>,
)
    requires
        first == block_hash(index, timestamp, data, previous_hash, nonce, salt),
        second == block_hash(index, timestamp, data, previous_hash, nonce, salt),
    ensures
        first == second,
{
}

/// The nonce that the search returns, fed back into the hash derivation,
/// gives a digest that begins with `difficulty` zeros.
pub proof fn mined_nonce_meets_target(
    index: u32,
    timestamp: u128,
    data: Seq<char>,
    previous_hash: Seq<char>,
    salt: Seq<char>,
    difficulty: u32,
    limit: u64,
    nonce: u64,
    hash: Seq<char>,
)
    requires
        first_solution(index, timestamp, data, previous_hash, salt, difficulty, limit, nonce, hash),
    ensures
        zero_prefix(
            block_hash(index, timestamp, data, previous_hash, nonce, salt),
            difficulty as nat,
        ),
        hash == block_hash(index, timestamp, data, previous_hash, nonce, salt),
{
}

/// In a chain built by construction and appends, every record after the
/// first carries the hash of the record before it.
pub proof fn built_chain_is_linked(bc: Blockchain)
    requires
        bc.wf(),
    ensures
        forall|i: int| 1 <= i < bc.chain@.len() ==> #[trigger] linked(bc.chain@, i),
{
    assert forall|i: int| 1 <= i < bc.chain@.len() implies #[trigger] linked(bc.chain@, i) by {
        let c = bc.chain@;
        assert(c[i].mined_from(i as u32, c[i].timestamp, c[i].data@, expected_previous(c, i), bc.difficulty));
    }
}

/// In a chain built by construction and appends, the record at offset `i`
/// has index `i`.
pub proof fn built_chain_is_indexed(bc: Blockchain)
    requires
        bc.wf(),
    ensures
        forall|i: int| 0 <= i < bc.chain@.len() ==> #[trigger] bc.chain@[i].index == i,
{
    assert forall|i: int| 0 <= i < bc.chain@.len() implies #[trigger] bc.chain@[i].index == i by {
        let c = bc.chain@;
        assert(c[i].mined_from(
            i as u32,
            c[i].timestamp,
            c[i].data@,
            expected_previous(c, i),
            bc.difficulty,
        ));
    }
}

/// In a chain built by construction and appends, every record's hash
/// begins with as many zeros as the chain's difficulty.
pub proof fn built_chain_meets_difficulty(bc: Blockchain)
    requires
        bc.wf(),
    ensures
        forall|i: int|
            0 <= i < bc.chain@.len() ==> zero_prefix(
                #[trigger] bc.chain@[i].hash@,
                bc.difficulty as nat,
            ),
{
    assert forall|i: int| 0 <= i < bc.chain@.len() implies zero_prefix(
        #[trigger] bc.chain@[i].hash@,
        bc.difficulty as nat,
    ) by {
        let c = bc.chain@;
        assert(c[i].mined_from(
            i as u32,
            c[i].timestamp,
            c[i].data@,
            expected_previous(c, i),
            bc.difficulty,
        ));
    }
}

/// A chain built by construction and appends passes validation.
pub proof fn built_chain_is_valid(bc: Blockchain)
    requires
        bc.wf(),
    ensures
        chain_valid(bc.chain@),
        first_fault(bc.chain@) is None,
{
    let c = bc.chain@;
    assert forall|i: int| 1 <= i < c.len() implies #[trigger] pair_ok(c, i) by {
        assert(c[i].mined_from(i as u32, c[i].timestamp, c[i].data@, expected_previous(c, i), bc.difficulty));
    }
    lemma_first_fault_upto(c, c.len() as int);
}

/// Replacing the record at `i` of a built chain by one that fails at `i`,
/// the pairs before `i` still pass, so validation reports record `i`.
proof fn lemma_fault_reported_at(bc: Blockchain, i: int, b: Block)
    requires
        bc.wf(),
        1 <= i < bc.chain@.len(),
        fault_at(bc.chain@.update(i, b), i) is Some,
    ensures
        first_fault(bc.chain@.update(i, b)) == fault_at(bc.chain@.update(i, b), i),
{
    let c = bc.chain@;
    let t = c.update(i, b);
    built_chain_is_valid(bc);
    assert forall|j: int| 1 <= j < i implies #[trigger] pair_ok(t, j) by {
        assert(pair_ok(c, j));
    }
    lemma_first_fault_upto(t, i);
    assert(first_fault_upto(t, i + 1) == fault_at(t, i));
    lemma_first_fault_stays(t, i + 1, t.len() as int);
}

/// Altering the stored fields of a record after the first, without
/// recomputing its hash, makes validation fail at that record: at its link
/// when its previous hash changed, else at its digest. Left out are the
/// alterations whose fields still derive the stored hash: a SHA-256
/// collision, or fields whose text in the preimage is unchanged (index 1
/// with timestamp 23 turned into index 12 with timestamp 3).
pub proof fn tampering_is_detected(bc: Blockchain, i: int, b: Block)
    requires
        bc.wf(),
        1 <= i < bc.chain@.len(),
        b.hash@ == bc.chain@[i].hash@,
        !(b.previous_hash@ == bc.chain@[i].previous_hash@ && b.sealed()),
    ensures
        !chain_valid(bc.chain@.update(i, b)),
        first_fault(bc.chain@.update(i, b)) == if b.previous_hash@ == bc.chain@[i].previous_hash@ {
            Some(ChainFault::HashMismatch(i as usize))
        } else {
            Some(ChainFault::BrokenLink(i as usize))
        },
{
    let c = bc.chain@;
    let t = c.update(i, b);
    built_chain_is_linked(bc);
    assert(linked(c, i));
    assert(t[i - 1] == c[i - 1]);
    lemma_fault_reported_at(bc, i, b);
    lemma_first_fault_upto(t, t.len() as int);
}

/// Giving a record after the first a previous hash other than its
/// predecessor's hash makes validation fail at that record's link, before
/// its digest is recomputed.
pub proof fn broken_link_is_detected(bc: Blockchain, i: int, b: Block)
    requires
        bc.wf(),
        1 <= i < bc.chain@.len(),
        b.previous_hash@ != bc.chain@[i - 1].hash@,
    ensures
        !chain_valid(bc.chain@.update(i, b)),
        first_fault(bc.chain@.update(i, b)) == Some(ChainFault::BrokenLink(i as usize)),
{
    let t = bc.chain@.update(i, b);
    assert(t[i - 1] == bc.chain@[i - 1]);
    lemma_fault_reported_at(bc, i, b);
    lemma_first_fault_upto(t, t.len() as int);
}

} // verus!
