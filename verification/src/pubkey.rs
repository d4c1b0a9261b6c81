//! Account and asset identifiers: 32 bytes, written on the wire in base 58.

use vstd::prelude::*;

verus! {

/// The base-58 text of the 32 bytes of an identifier.
pub uninterp spec fn base58_text(bytes: [u8; 32]) -> Seq<char>;

/// The 32 bytes that a text writes in base 58; `None` for a text that writes
/// no identifier.
pub uninterp spec fn base58_bytes(text: Seq<char>) -> Option<[u8; 32]>;

/// An account or asset identifier.
#[derive(Clone, Copy, Debug, PartialEq, Eq, Hash)]
pub struct Pubkey {
    pub bytes: [u8; 32],
}

/// `solana_sdk::pubkey::Pubkey`'s `Display`: the text it writes for the key
/// made of `bytes` is what [`base58_text`] names.
#[verifier::external_body]
fn base58_encode(bytes: &[u8; 32]) -> (text: String)
    ensures
        text@ == base58_text(*bytes),
{
    solana_sdk::pubkey::Pubkey::new_from_array(*bytes).to_string()
}

/// `solana_sdk::pubkey::Pubkey`'s `from_str`: the bytes of the key it reads
/// from `text`, or `None` where it fails, are what [`base58_bytes`] names.
#[verifier::external_body]
fn base58_decode(text: &str) -> (bytes: Option<[u8; 32]>)
    ensures
        bytes == base58_bytes(text@),
{
    match text.parse::<solana_sdk::pubkey::Pubkey>() {
        Ok(key) => Some(key.to_bytes()),
        Err(_) => None,
    }
}

impl Pubkey {
    /// The identifier that a text writes, where it writes one.
    pub open spec fn of_text(text: Seq<char>) -> Option<Pubkey> {
        match base58_bytes(text) {
            Some(bytes) => Some(Pubkey { bytes }),
            None => None,
        }
    }

    /// The text of this identifier.
    pub open spec fn text(self) -> Seq<char> {
        base58_text(self.bytes)
    }

    /// The identifier made of `bytes`.
    pub fn new_from_array(bytes: [u8; 32]) -> (key: Pubkey)
        ensures
            key.bytes == bytes,
    {
        Pubkey { bytes }
    }

    /// The bytes of the identifier.
    pub fn to_bytes(&self) -> (bytes: [u8; 32])
        ensures
            bytes == self.bytes,
    {
        self.bytes
    }

    /// The base-58 text of the identifier.
    pub fn to_string(&self) -> (text: String)
        ensures
            text@ == self.text(),
    {
        base58_encode(&self.bytes)
    }

    /// Whether the identifier is read back from its own text.
    pub fn round_trips(&self) -> (ok: bool)
        ensures
            ok == (Pubkey::of_text(self.text()) == Some(*self)),
    {
        let text = self.to_string();
        match Pubkey::from_str(text.as_str()) {
            Some(back) => same_bytes(&back.bytes, &self.bytes),
            None => false,
        }
    }

    /// Reads an identifier from its base-58 text; `None` for any other text.
    pub fn from_str(text: &str) -> (key: Option<Pubkey>)
        ensures
            key == Pubkey::of_text(text@),
    {
        match base58_decode(text) {
            Some(bytes) => Some(Pubkey { bytes }),
            None => None,
        }
    }
}

/// Whether two runs of 32 bytes hold the same bytes.
fn same_bytes(a: &[u8; 32], b: &[u8; 32]) -> (same: bool)
    ensures
        same == (*a == *b),
{
    let mut i: usize = 0;
    while i < 32
        invariant
            i <= 32,
            forall|k: int| 0 <= k < i ==> a[k] == b[k],
        decreases 32 - i,
    {
        if a[i] != b[i] {
            return false;
        }
        i += 1;
    }
    assert(*a =~= *b);
    true
}

/// Whether an identifier is the one of 32 zero bytes.
pub open spec fn is_zero_key(key: Pubkey) -> bool {
    forall|i: int| 0 <= i < 32 ==> key.bytes[i] == 0
}

impl Default for Pubkey {
    /// The identifier of 32 zero bytes.
    fn default() -> (key: Pubkey)
        ensures
            is_zero_key(key),
    {
        Pubkey { bytes: [0u8; 32] }
    }
}

} // verus!
