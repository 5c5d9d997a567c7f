//! The 32-byte hashes that name blocks, chunks, transactions, receipts and data,
//! and the keys under which the lineage cache files them.

use vstd::prelude::*;

verus! {

/// A 32-byte hash as the chain hands it out.
#[derive(Clone, Copy, Debug, PartialEq, Eq, Hash)]
pub struct CryptoHash {
    pub bytes: [u8; 32],
}

impl View for CryptoHash {
    type V = Seq<u8>;

    open spec fn view(&self) -> Seq<u8> {
        self.bytes@
    }
}

/// The text that `near_indexer_primitives::CryptoHash` displays for the hash
/// with these 32 bytes: their base58 encoding.
pub uninterp spec fn crypto_hash_text(bytes: Seq<u8>) -> Seq<char>;

/// The bytes that `near_indexer_primitives::CryptoHash` parses out of a text,
/// or `None` where it rejects the text.
pub uninterp spec fn crypto_hash_parse(text: Seq<char>) -> Option<Seq<u8>>;

/// Calls the `Display` impl of `near_indexer_primitives::CryptoHash` on the
/// hash with the given bytes. The contract only names the text: it is the
/// same for the same bytes.
#[verifier::external_body]
fn display_crypto_hash(bytes: &[u8; 32]) -> (text: String)
    ensures
        text@ == crypto_hash_text(bytes@),
{
    near_indexer_primitives::CryptoHash(*bytes).to_string()
}

/// Calls the `FromStr` impl of `near_indexer_primitives::CryptoHash`. The
/// contract only names the outcome; a parsed hash has 32 bytes by its type.
#[verifier::external_body]
fn parse_crypto_hash(text: &str) -> (parsed: Option<[u8; 32]>)
    ensures
        parsed is Some <==> crypto_hash_parse(text@) is Some,
        parsed matches Some(bytes) ==> crypto_hash_parse(text@) == Some(bytes@),
{
    match <near_indexer_primitives::CryptoHash as std::str::FromStr>::from_str(text) {
        Ok(hash) => Some(hash.0),
        Err(_) => None,
    }
}

impl CryptoHash {
    /// The text under which the hash is stored in every table.
    pub open spec fn text(&self) -> Seq<char> {
        crypto_hash_text(self@)
    }

    /// Renders the hash as the text under which it is stored.
    pub fn to_text(&self) -> (text: String)
        ensures
            text@ == self.text(),
    {
        display_crypto_hash(&self.bytes)
    }

    /// Reads a hash back from its stored text. `None` exactly where the text
    /// is not the text of a 32-byte hash.
    pub fn from_text(text: &str) -> (parsed: Option<CryptoHash>)
        ensures
            parsed is Some <==> crypto_hash_parse(text@) is Some,
            parsed matches Some(hash) ==> crypto_hash_parse(text@) == Some(hash@),
    {
        match parse_crypto_hash(text) {
            Some(bytes) => Some(CryptoHash { bytes }),
            None => None,
        }
    }

    /// Whether two hashes hold the same bytes.
    pub fn same(&self, other: &CryptoHash) -> (r: bool)
        ensures
            r == (self@ == other@),
    {
        let mut i: usize = 0;
        while i < 32
            invariant
                i <= 32,
                forall|j: int| 0 <= j < i ==> self.bytes@[j] == other.bytes@[j],
            decreases 32 - i,
        {
            if self.bytes[i] != other.bytes[i] {
                return false;
            }
            i += 1;
        }
        assert(self.bytes@ =~= other.bytes@);
        true
    }
}

/// The key of the lineage cache in contracts: `false` with the bytes of a
/// receipt id, or `true` with the bytes of a data id.
pub type LineageKey = (bool, Seq<u8>);

/// What a cached transaction hash is filed under: the id of a receipt, or the
/// id of the data that a data receipt will carry.
#[derive(Clone, Copy, Debug, PartialEq, Eq, Hash)]
pub enum ReceiptOrDataId {
    ReceiptId(CryptoHash),
    DataId(CryptoHash),
}

impl View for ReceiptOrDataId {
    type V = LineageKey;

    open spec fn view(&self) -> LineageKey {
        match self {
            ReceiptOrDataId::ReceiptId(hash) => (false, hash@),
            ReceiptOrDataId::DataId(hash) => (true, hash@),
        }
    }
}

impl ReceiptOrDataId {
    /// Whether two ids are of the same kind and hold the same bytes.
    pub fn same(&self, other: &ReceiptOrDataId) -> (r: bool)
        ensures
            r == (self@ == other@),
    {
        match (self, other) {
            (ReceiptOrDataId::ReceiptId(a), ReceiptOrDataId::ReceiptId(b)) => a.same(b),
            (ReceiptOrDataId::DataId(a), ReceiptOrDataId::DataId(b)) => a.same(b),
            _ => false,
        }
    }

    /// The plain pair under which the cache stores the id.
    pub fn cache_key(&self) -> (key: (bool, [u8; 32]))
        ensures
            (key.0, key.1@) == self@,
    {
        match self {
            ReceiptOrDataId::ReceiptId(hash) => (false, hash.bytes),
            ReceiptOrDataId::DataId(hash) => (true, hash.bytes),
        }
    }
}

} // verus!
