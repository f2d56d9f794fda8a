//! One sealed record of the chain, its hash derivation and the nonce search.
use crate::digest::{sha256, sha256_of};
use crate::text::{append_decimal, decimal, has_zero_prefix, hex_lower, lower_hex, zero_prefix};
use vstd::prelude::*;
use vstd::string::*;
use vstd::utf8::encode_utf8;

verus! {

/// The largest nonce tried by one round of the search before it restarts.
pub const NONCE_LIMIT: u64 = 1_000_000;

/// The text whose UTF-8 bytes are hashed: the fields in a fixed order, the
/// integers in base ten.
pub open spec fn hash_preimage(
    index: u32,
    timestamp: u128,
    data: Seq<char>,
    previous_hash: Seq<char>,
    nonce: u64,
    salt: Seq<char>,
) -> Seq<char> {
    decimal(index as nat) + decimal(timestamp as nat) + data + previous_hash + decimal(nonce as nat)
        + salt
}

/// The digest of a record: SHA-256 of the preimage, in lowercase hexadecimal.
pub open spec fn block_hash(
    index: u32,
    timestamp: u128,
    data: Seq<char>,
    previous_hash: Seq<char>,
    nonce: u64,
    salt: Seq<char>,
) -> Seq<char> {
    hex_lower(sha256_of(encode_utf8(hash_preimage(index, timestamp, data, previous_hash, nonce, salt))))
}

/// The salt of a record: its index followed by its timestamp, in base ten.
pub open spec fn salt_of(index: u32, timestamp: u128) -> Seq<char> {
    decimal(index as nat) + decimal(timestamp as nat)
}

/// Whether `nonce` gives a digest with `difficulty` leading zeros.
pub open spec fn meets_target(
    index: u32,
    timestamp: u128,
    data: Seq<char>,
    previous_hash: Seq<char>,
    nonce: u64,
    salt: Seq<char>,
    difficulty: u32,
) -> bool {
    zero_prefix(block_hash(index, timestamp, data, previous_hash, nonce, salt), difficulty as nat)
}

/// Whether some nonce up to `limit` meets the target.
pub open spec fn round_finds(
    index: u32,
    timestamp: u128,
    data: Seq<char>,
    previous_hash: Seq<char>,
    salt: Seq<char>,
    difficulty: u32,
    limit: u64,
) -> bool {
    exists|n: u64|
        n <= limit && #[trigger] meets_target(
            index,
            timestamp,
            data,
            previous_hash,
            n,
            salt,
            difficulty,
        )
}

/// `nonce` is the smallest nonce up to `limit` that meets the target, and
/// `hash` its digest.
pub open spec fn first_solution(
    index: u32,
    timestamp: u128,
    data: Seq<char>,
    previous_hash: Seq<char>,
    salt: Seq<char>,
    difficulty: u32,
    limit: u64,
    nonce: u64,
    hash: Seq<char>,
) -> bool {
    &&& nonce <= limit
    &&& hash == block_hash(index, timestamp, data, previous_hash, nonce, salt)
    &&& meets_target(index, timestamp, data, previous_hash, nonce, salt, difficulty)
    &&& forall|m: u64|
        m < nonce ==> !#[trigger] meets_target(
            index,
            timestamp,
            data,
            previous_hash,
            m,
            salt,
            difficulty,
        )
}

/// One record of the chain.
#[derive(Debug)]
pub struct Block {
    pub index: u32,
    pub timestamp: u128,
    pub data: String,
    pub previous_hash: String,
    pub hash: String,
    pub nonce: u64,
    pub salt: String,
}

impl Block {
    /// The stored hash is the digest of the record's own stored fields.
    pub open spec fn sealed(&self) -> bool {
        self.hash@ == block_hash(
            self.index,
            self.timestamp,
            self.data@,
            self.previous_hash@,
            self.nonce,
            self.salt@,
        )
    }

    /// The record is what mining `data` at `index` and `timestamp`, after
    /// `previous_hash`, produces at `difficulty`: salt derived from index and
    /// timestamp, and the first nonce of the round that meets the target.
    pub open spec fn mined_from(
        &self,
        index: u32,
        timestamp: u128,
        data: Seq<char>,
        previous_hash: Seq<char>,
        difficulty: u32,
    ) -> bool {
        &&& self.index == index
        &&& self.timestamp == timestamp
        &&& self.data@ == data
        &&& self.previous_hash@ == previous_hash
        &&& self.salt@ == salt_of(index, timestamp)
        &&& first_solution(
            index,
            timestamp,
            data,
            previous_hash,
            salt_of(index, timestamp),
            difficulty,
            NONCE_LIMIT,
            self.nonce,
            self.hash@,
        )
    }

    /// Derives the digest of a record from its fields.
    pub fn calculate_hash(
        index: u32,
        timestamp: u128,
        data: &str,
        previous_hash: &str,
        nonce: u64,
        salt: &str,
    ) -> (r: String)
        ensures
            r@ == block_hash(index, timestamp, data@, previous_hash@, nonce, salt@),
            r@.len() == 64,
    {
        let mut text = String::new();
        append_decimal(&mut text, index as u128);
        append_decimal(&mut text, timestamp);
        text.append(data);
        text.append(previous_hash);
        append_decimal(&mut text, nonce as u128);
        text.append(salt);
        let digest = sha256(text.as_str().as_bytes());
        assert(text@ =~= hash_preimage(index, timestamp, data@, previous_hash@, nonce, salt@));
        lower_hex(&digest)
    }

    /// Searches the nonces `0..=limit` in order for the first whose digest
    /// begins with `difficulty` zeros. `None` means the round is exhausted
    /// and the search has to restart.
    pub fn search_nonces(
        index: u32,
        timestamp: u128,
        data: &str,
        previous_hash: &str,
        difficulty: u32,
        salt: &str,
        limit: u64,
    ) -> (r: Option<(u64, String)>)
        ensures
            r is None <==> !round_finds(
                index,
                timestamp,
                data@,
                previous_hash@,
                salt@,
                difficulty,
                limit,
            ),
            r matches Some((n, h)) ==> first_solution(
                index,
                timestamp,
                data@,
                previous_hash@,
                salt@,
                difficulty,
                limit,
                n,
                h@,
            ),
    {
        let mut nonce: u64 = 0;
        loop
            invariant
                nonce <= limit,
                forall|m: u64|
                    m < nonce ==> !#[trigger] meets_target(
                        index,
                        timestamp,
                        data@,
                        previous_hash@,
                        m,
                        salt@,
                        difficulty,
                    ),
            decreases limit - nonce,
        {
            let hash = Block::calculate_hash(index, timestamp, data, previous_hash, nonce, salt);
            if has_zero_prefix(hash.as_str(), difficulty) {
                assert(meets_target(index, timestamp, data@, previous_hash@, nonce, salt@, difficulty));
                return Some((nonce, hash));
            }
            if nonce == limit {
                return None;
            }
            nonce = nonce + 1;
        }
    }

    /// One round of the search with the standard budget: the nonces
    /// `0..=NONCE_LIMIT`. `None` is the restart event.
    pub fn mine_block(
        index: u32,
        timestamp: u128,
        data: &str,
        previous_hash: &str,
        difficulty: u32,
        salt: &str,
    ) -> (r: Option<(u64, String)>)
        ensures
            r is None <==> !round_finds(
                index,
                timestamp,
                data@,
                previous_hash@,
                salt@,
                difficulty,
                NONCE_LIMIT,
            ),
            r matches Some((n, h)) ==> first_solution(
                index,
                timestamp,
                data@,
                previous_hash@,
                salt@,
                difficulty,
                NONCE_LIMIT,
                n,
                h@,
            ),
    {
        Block::search_nonces(index, timestamp, data, previous_hash, difficulty, salt, NONCE_LIMIT)
    }

    /// Builds and seals the record holding `data` at `index`, after
    /// `previous_hash`, created at `timestamp`. `None` when the round of the
    /// search is exhausted; the caller restarts it.
    pub fn new(
        index: u32,
        data: String,
        previous_hash: String,
        difficulty: u32,
        timestamp: u128,
    ) -> (r: Option<Block>)
        ensures
            r is None <==> !round_finds(
                index,
                timestamp,
                data@,
                previous_hash@,
                salt_of(index, timestamp),
                difficulty,
                NONCE_LIMIT,
            ),
            r matches Some(b) ==> b.mined_from(
                index,
                timestamp,
                data@,
                previous_hash@,
                difficulty,
            ),
    {
        let mut salt = String::new();
        append_decimal(&mut salt, index as u128);
        append_decimal(&mut salt, timestamp);
        assert(salt@ =~= salt_of(index, timestamp));
        match Block::mine_block(
            index,
            timestamp,
            data.as_str(),
            previous_hash.as_str(),
            difficulty,
            salt.as_str(),
        ) {
            Some((nonce, hash)) => Some(Block { index, timestamp, data, previous_hash, hash, nonce, salt }),
            None => None,
        }
    }
}

} // verus!
